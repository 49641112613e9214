use vstd::prelude::*;

use crate::status::DrawStatus;

verus! {

/// What came of asking the platform for a new image chain.
#[derive(Debug, Clone, Copy, PartialEq, Eq, Structural)]
pub enum RecreateOutcome {
    /// A chain of `image_count` images of `width` x `height` was created.
    Created { image_count: usize, width: u32, height: u32 },
    /// The platform does not support the requested extent (a window of zero area).
    ExtentNotSupported,
    /// Any other failure.
    Failed,
}

/// What the frame loop does with a recreate outcome.
#[derive(Debug, Clone, Copy, PartialEq, Eq, Structural)]
pub enum RecreateDecision {
    /// Adopt the new chain and rebuild both framebuffer sets from it.
    Rebuild,
    /// Keep the current chain and its framebuffers; retry on the next resize.
    Keep,
    /// The process cannot continue.
    Fatal,
}

/// The current image chain, as far as the frame loop needs it.
pub struct Chain {
    pub width: u32,
    pub height: u32,
    pub image_count: usize,
    /// How many chains were adopted before this one.
    pub generation: nat,
}

pub struct SwapchainView {
    /// The window's size as last reported.
    pub window_width: u32,
    pub window_height: u32,
    pub chain: Chain,
    /// Framebuffer pairs (offscreen and screen) built for the current chain.
    pub framebuffers: usize,
    /// A rebuild is due on the next tick.
    pub recreate_pending: bool,
}

impl SwapchainView {
    /// The framebuffer set matches the chain, which is never empty.
    pub open spec fn wf(self) -> bool {
        &&& self.chain.image_count > 0
        &&& self.framebuffers == self.chain.image_count
    }

    pub open spec fn has_area(self) -> bool {
        self.window_width != 0 && self.window_height != 0
    }

    pub open spec fn resized(self, width: u32, height: u32) -> Self {
        SwapchainView { window_width: width, window_height: height, recreate_pending: true, ..self }
    }

    /// The extent a new chain is asked for at the start of a tick, if any: a
    /// pending request for a window of zero area is dropped, since such a
    /// window cannot be rendered; the next resize asks again.
    pub open spec fn requested_extent(self) -> Option<(u32, u32)> {
        if self.recreate_pending && self.has_area() {
            Some((self.window_width, self.window_height))
        } else {
            None
        }
    }

    pub open spec fn after_request(self) -> Self {
        SwapchainView { recreate_pending: false, ..self }
    }

    pub open spec fn decision(outcome: RecreateOutcome) -> RecreateDecision {
        match outcome {
            RecreateOutcome::Created { image_count, .. } => if image_count > 0 {
                RecreateDecision::Rebuild
            } else {
                RecreateDecision::Fatal
            },
            RecreateOutcome::ExtentNotSupported => RecreateDecision::Keep,
            RecreateOutcome::Failed => RecreateDecision::Fatal,
        }
    }

    pub open spec fn after_recreate(self, outcome: RecreateOutcome) -> Self {
        match outcome {
            RecreateOutcome::Created { image_count, width, height } => if image_count > 0 {
                SwapchainView {
                    chain: Chain { width, height, image_count, generation: self.chain.generation + 1 },
                    framebuffers: image_count,
                    ..self
                }
            } else {
                self
            },
            _ => self,
        }
    }
}

/// Keeps the presentable image chain in step with the window.
pub struct SwapchainManager {
    window_width: u32,
    window_height: u32,
    width: u32,
    height: u32,
    image_count: usize,
    generation: Ghost<nat>,
    framebuffers: usize,
    recreate_pending: bool,
}

impl View for SwapchainManager {
    type V = SwapchainView;

    closed spec fn view(&self) -> SwapchainView {
        SwapchainView {
            window_width: self.window_width,
            window_height: self.window_height,
            chain: Chain {
                width: self.width,
                height: self.height,
                image_count: self.image_count,
                generation: self.generation@,
            },
            framebuffers: self.framebuffers,
            recreate_pending: self.recreate_pending,
        }
    }
}

impl SwapchainManager {
    /// The manager of the chain created at start-up, whose framebuffers were
    /// built; a first rebuild is due, to match the window's actual size.
    pub fn new(window_width: u32, window_height: u32, image_count: usize, width: u32, height: u32) -> (r: Self)
        requires
            image_count > 0,
        ensures
            r@.wf(),
            r@ == (SwapchainView {
                window_width,
                window_height,
                chain: Chain { width, height, image_count, generation: 0 },
                framebuffers: image_count,
                recreate_pending: true,
            }),
    {
        SwapchainManager {
            window_width,
            window_height,
            width,
            height,
            image_count,
            generation: Ghost(0),
            framebuffers: image_count,
            recreate_pending: true,
        }
    }

    pub fn image_count(&self) -> (r: usize)
        ensures
            r == self@.chain.image_count,
    {
        self.image_count
    }

    pub fn extent(&self) -> (r: (u32, u32))
        ensures
            r == (self@.chain.width, self@.chain.height),
    {
        (self.width, self.height)
    }

    pub fn window_size(&self) -> (r: (u32, u32))
        ensures
            r == (self@.window_width, self@.window_height),
    {
        (self.window_width, self.window_height)
    }

    /// Records the window's new size; the chain is rebuilt on the next tick.
    pub fn resize(&mut self, width: u32, height: u32)
        ensures
            final(self)@ == old(self)@.resized(width, height),
    {
        self.window_width = width;
        self.window_height = height;
        self.recreate_pending = true;
    }

    /// Whether a frame can be drawn: a window of zero area cannot be rendered.
    pub fn can_render(&self) -> (r: bool)
        ensures
            r == self@.has_area(),
    {
        self.window_width != 0 && self.window_height != 0
    }

    /// Takes the pending rebuild request, and returns the extent to ask the
    /// platform for, if any.
    pub fn take_recreate_request(&mut self) -> (r: Option<(u32, u32)>)
        ensures
            r == old(self)@.requested_extent(),
            final(self)@ == old(self)@.after_request(),
    {
        let pending = self.recreate_pending;
        self.recreate_pending = false;
        if pending && self.window_width != 0 && self.window_height != 0 {
            Some((self.window_width, self.window_height))
        } else {
            None
        }
    }

    /// Decides on what came of asking for a new chain. A new chain is adopted
    /// together with a framebuffer pair for each of its images; an unsupported
    /// extent keeps the current chain; anything else is fatal.
    pub fn complete_recreate(&mut self, outcome: RecreateOutcome) -> (r: RecreateDecision)
        requires
            old(self)@.wf(),
        ensures
            final(self)@.wf(),
            r == SwapchainView::decision(outcome),
            final(self)@ == old(self)@.after_recreate(outcome),
    {
        match outcome {
            RecreateOutcome::Created { image_count, width, height } => {
                if image_count > 0 {
                    self.width = width;
                    self.height = height;
                    self.image_count = image_count;
                    self.framebuffers = image_count;
                    self.generation = Ghost(self.generation@ + 1);
                    RecreateDecision::Rebuild
                } else {
                    RecreateDecision::Fatal
                }
            },
            RecreateOutcome::ExtentNotSupported => RecreateDecision::Keep,
            RecreateOutcome::Failed => RecreateDecision::Fatal,
        }
    }

    /// Takes in the status a frame ended with: a stale surface schedules a
    /// rebuild for the next tick, never in the middle of a frame.
    pub fn frame_ended(&mut self, status: DrawStatus)
        ensures
            final(self)@ == (SwapchainView {
                recreate_pending: old(self)@.recreate_pending || status == DrawStatus::ShouldRecreateSwapchain,
                ..old(self)@
            }),
    {
        if status.requests_recreation() {
            self.recreate_pending = true;
        }
    }
}

/// A window of zero width or height never replaces the swapchain: no new
/// chain is asked for, a platform refusal of the extent keeps the current
/// chain, and its framebuffers stay those of that chain, so that rendering
/// resumes on them once the window regains a nonzero size.
pub proof fn law_zero_extent_keeps_swapchain(s: SwapchainView, width: u32, height: u32)
    requires
        s.wf(),
        width == 0 || height == 0,
    ensures
        s.resized(width, height).requested_extent() is None,
        s.resized(width, height).after_request().chain == s.chain,
        s.resized(width, height).after_request().wf(),
        !s.resized(width, height).has_area(),
        s.after_recreate(RecreateOutcome::ExtentNotSupported) == s,
        SwapchainView::decision(RecreateOutcome::ExtentNotSupported) == RecreateDecision::Keep,
{
}

} // verus!
