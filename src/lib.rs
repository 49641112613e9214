use vstd::prelude::*;

pub mod attachments;
pub mod frame;
pub mod mirror;
pub mod status;
pub mod swapchain;
pub mod timeline;
