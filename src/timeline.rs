use vstd::prelude::*;

use crate::status::DrawStatus;

verus! {

/// What came of asking the swapchain for the next presentable image.
#[derive(Debug, Clone, Copy, PartialEq, Eq, Structural)]
pub enum AcquireOutcome {
    /// An image was handed out; `suboptimal` says the surface no longer
    /// matches the swapchain exactly.
    Acquired { image: u32, suboptimal: bool },
    /// The surface changed: the swapchain must be rebuilt.
    OutOfDate,
    /// The bounded wait for an image ran out.
    TimedOut,
    /// Any other acquisition error.
    Failed,
}

/// What came of submitting the composite pass and presenting its image.
#[derive(Debug, Clone, Copy, PartialEq, Eq, Structural)]
pub enum PresentOutcome {
    Presented,
    /// The surface went stale while presenting.
    OutOfDate,
    /// Any other submission or flush error.
    Failed,
}

/// Which completion signal stands for the GPU work of the previous frame.
#[derive(Debug, Clone, Copy, PartialEq, Eq, Structural)]
pub enum PreviousSignal {
    /// The signal of the last submission.
    Submission,
    /// A signal that is already complete: the one the device starts with, or
    /// one put in place of a failed submission.
    Noop,
}

/// Where the current frame stands.
#[derive(Debug, Clone, Copy, PartialEq, Eq, Structural)]
pub enum FrameState {
    /// No frame is being recorded.
    Idle,
    /// No image was acquired this tick: the frame is skipped until it is ended.
    Skipped,
    /// The offscreen pass is being recorded for this swapchain image.
    Offscreen(u32),
    /// The offscreen pass was submitted; the composite pass is being recorded.
    Composite(u32),
}

pub struct TimelineView {
    pub state: FrameState,
    /// A swapchain rebuild was asked for and not yet reported.
    pub recreate_pending: bool,
    pub previous: PreviousSignal,
}

/// The decisions that sequence acquire, the two submissions and present.
pub struct FrameTimeline {
    state: FrameState,
    recreate_pending: bool,
    previous: PreviousSignal,
}

impl View for FrameTimeline {
    type V = TimelineView;

    closed spec fn view(&self) -> TimelineView {
        TimelineView { state: self.state, recreate_pending: self.recreate_pending, previous: self.previous }
    }
}

/// The status that reports `pending`.
pub open spec fn status_of(pending: bool) -> DrawStatus {
    if pending {
        DrawStatus::ShouldRecreateSwapchain
    } else {
        DrawStatus::Continue
    }
}

impl FrameTimeline {
    pub fn new() -> (r: Self)
        ensures
            r@ == (TimelineView {
                state: FrameState::Idle,
                recreate_pending: false,
                previous: PreviousSignal::Noop,
            }),
    {
        FrameTimeline { state: FrameState::Idle, recreate_pending: false, previous: PreviousSignal::Noop }
    }

    pub fn state(&self) -> (r: FrameState)
        ensures
            r == self@.state,
    {
        self.state
    }

    pub fn previous(&self) -> (r: PreviousSignal)
        ensures
            r == self@.previous,
    {
        self.previous
    }

    /// Records that the start-up uploads were submitted: their signal is the
    /// first "previous frame".
    pub fn uploads_submitted(&mut self)
        requires
            old(self)@.state == FrameState::Idle,
        ensures
            final(self)@ == (TimelineView { previous: PreviousSignal::Submission, ..old(self)@ }),
    {
        self.previous = PreviousSignal::Submission;
    }

    /// Decides on the outcome of acquiring an image for a swapchain of
    /// `image_count` images. On success the offscreen pass starts for that
    /// image, and the rebuild request is whether the image is suboptimal.
    /// Otherwise the frame is skipped; an out-of-date surface also asks for a
    /// rebuild. An image outside the framebuffer set is skipped.
    pub fn begin_frame(&mut self, outcome: AcquireOutcome, image_count: usize) -> (r: Option<u32>)
        requires
            old(self)@.state == FrameState::Idle,
        ensures
            final(self)@.previous == old(self)@.previous,
            match outcome {
                AcquireOutcome::Acquired { image, suboptimal } => if (image as int) < image_count {
                    &&& r == Some(image)
                    &&& final(self)@.state == FrameState::Offscreen(image)
                    &&& final(self)@.recreate_pending == suboptimal
                } else {
                    &&& r == None::<u32>
                    &&& final(self)@ == (TimelineView { state: FrameState::Skipped, ..old(self)@ })
                },
                AcquireOutcome::OutOfDate => {
                    &&& r == None::<u32>
                    &&& final(self)@ == (TimelineView {
                        state: FrameState::Skipped,
                        recreate_pending: true,
                        ..old(self)@
                    })
                },
                _ => {
                    &&& r == None::<u32>
                    &&& final(self)@ == (TimelineView { state: FrameState::Skipped, ..old(self)@ })
                },
            },
    {
        match outcome {
            AcquireOutcome::Acquired { image, suboptimal } => {
                if (image as usize) < image_count {
                    self.state = FrameState::Offscreen(image);
                    self.recreate_pending = suboptimal;
                    return Some(image);
                }
            },
            AcquireOutcome::OutOfDate => {
                self.recreate_pending = true;
            },
            _ => {},
        }
        self.state = FrameState::Skipped;
        None
    }

    /// Ends the offscreen pass: its submission becomes the previous-frame
    /// signal, and the composite pass starts on the same image, which is
    /// returned so that its offscreen attachments can be sampled.
    pub fn advance_pass(&mut self) -> (r: u32)
        requires
            old(self)@.state matches FrameState::Offscreen(_),
        ensures
            old(self)@.state == FrameState::Offscreen(r),
            final(self)@ == (TimelineView {
                state: FrameState::Composite(r),
                previous: PreviousSignal::Submission,
                ..old(self)@
            }),
    {
        let image = match self.state {
            FrameState::Offscreen(i) => i,
            _ => 0,
        };
        self.state = FrameState::Composite(image);
        self.previous = PreviousSignal::Submission;
        image
    }

    /// Ends the frame. `outcome` is what came of submitting and presenting the
    /// composite pass, `None` for a skipped frame. A failed submission is
    /// replaced by an already complete signal, so that the previous-frame signal
    /// is never lost; a stale surface asks for a rebuild. The pending request is
    /// reported and cleared.
    pub fn end_frame(&mut self, outcome: Option<PresentOutcome>) -> (r: DrawStatus)
        requires
            old(self)@.state == FrameState::Skipped || old(self)@.state matches FrameState::Composite(_),
            outcome is None <==> old(self)@.state == FrameState::Skipped,
        ensures
            final(self)@.state == FrameState::Idle,
            !final(self)@.recreate_pending,
            r == status_of(old(self)@.recreate_pending || outcome == Some(PresentOutcome::OutOfDate)),
            final(self)@.previous == match outcome {
                None => old(self)@.previous,
                Some(PresentOutcome::Presented) => PreviousSignal::Submission,
                Some(_) => PreviousSignal::Noop,
            },
    {
        match outcome {
            None => {},
            Some(PresentOutcome::Presented) => {
                self.previous = PreviousSignal::Submission;
            },
            Some(PresentOutcome::OutOfDate) => {
                self.recreate_pending = true;
                self.previous = PreviousSignal::Noop;
            },
            Some(PresentOutcome::Failed) => {
                self.previous = PreviousSignal::Noop;
            },
        }
        self.state = FrameState::Idle;
        let r = if self.recreate_pending {
            DrawStatus::ShouldRecreateSwapchain
        } else {
            DrawStatus::Continue
        };
        self.recreate_pending = false;
        r
    }
}

} // verus!
