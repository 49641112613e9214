use vstd::prelude::*;

verus! {

/// The images the offscreen pass renders into, one set per swapchain image.
#[derive(Debug, Clone, Copy, PartialEq, Eq, Structural)]
pub enum Attachment {
    Color,
    Albedo,
    Normal,
    Depth,
}

/// Pixel formats of the offscreen attachments.
#[derive(Debug, Clone, Copy, PartialEq, Eq, Structural)]
pub enum PixelFormat {
    /// Four 32-bit float channels.
    Rgba32Float,
    /// Four 8-bit sRGB channels.
    Bgra8Srgb,
    /// One 32-bit float channel.
    R32Float,
}

/// One attachment of a screen framebuffer.
#[derive(Debug, Clone, Copy, PartialEq, Eq, Structural)]
pub enum ScreenAttachment {
    /// The swapchain image the frame is presented from.
    Presentable,
    /// An offscreen image, read as an input.
    Offscreen(Attachment),
}

/// Color keeps full float precision for denoising, albedo and normal need 8
/// bits a channel, and depth stays a lossless float for edge-stopping.
pub open spec fn format_of(a: Attachment) -> PixelFormat {
    match a {
        Attachment::Color => PixelFormat::Rgba32Float,
        Attachment::Albedo => PixelFormat::Bgra8Srgb,
        Attachment::Normal => PixelFormat::Bgra8Srgb,
        Attachment::Depth => PixelFormat::R32Float,
    }
}

pub open spec fn offscreen_order() -> Seq<Attachment> {
    seq![Attachment::Color, Attachment::Albedo, Attachment::Normal, Attachment::Depth]
}

pub fn attachment_format(a: Attachment) -> (r: PixelFormat)
    ensures
        r == format_of(a),
{
    match a {
        Attachment::Color => PixelFormat::Rgba32Float,
        Attachment::Albedo => PixelFormat::Bgra8Srgb,
        Attachment::Normal => PixelFormat::Bgra8Srgb,
        Attachment::Depth => PixelFormat::R32Float,
    }
}

/// The attachments of an offscreen framebuffer, in binding order.
pub fn offscreen_attachments() -> (r: Vec<Attachment>)
    ensures
        r@ == offscreen_order(),
{
    let r = vec![Attachment::Color, Attachment::Albedo, Attachment::Normal, Attachment::Depth];
    assert(r@ =~= offscreen_order());
    r
}

/// The attachments of a screen framebuffer: the presentable image first, then
/// the offscreen images in binding order.
pub fn screen_attachments() -> (r: Vec<ScreenAttachment>)
    ensures
        r@.len() == 1 + offscreen_order().len(),
        r@[0] == ScreenAttachment::Presentable,
        forall|k: int| 0 <= k < offscreen_order().len() ==> #[trigger] r@[k + 1] == ScreenAttachment::Offscreen(offscreen_order()[k]),
{
    let offscreen = offscreen_attachments();
    let mut r = vec![ScreenAttachment::Presentable];
    let mut k: usize = 0;
    while k < offscreen.len()
        invariant
            offscreen@ == offscreen_order(),
            k <= offscreen.len(),
            r@.len() == 1 + k,
            r@[0] == ScreenAttachment::Presentable,
            forall|m: int| 0 <= m < k ==> #[trigger] r@[m + 1] == ScreenAttachment::Offscreen(offscreen_order()[m]),
        decreases offscreen.len() - k,
    {
        r.push(ScreenAttachment::Offscreen(offscreen[k]));
        k = k + 1;
    }
    r
}

} // verus!
