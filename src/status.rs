use vstd::prelude::*;

verus! {

/// What the end of a frame reports to the frame loop.
#[derive(Debug, Clone, Copy, PartialEq, Eq, Structural)]
pub enum DrawStatus {
    /// The frame was presented, or skipped without any request.
    Continue,
    /// The surface went stale: the swapchain must be rebuilt before the next frame.
    ShouldRecreateSwapchain,
}

impl DrawStatus {
    /// Whether the status asks for a new swapchain.
    pub fn requests_recreation(&self) -> (r: bool)
        ensures
            r <==> *self == DrawStatus::ShouldRecreateSwapchain,
    {
        match self {
            DrawStatus::Continue => false,
            DrawStatus::ShouldRecreateSwapchain => true,
        }
    }
}

} // verus!
