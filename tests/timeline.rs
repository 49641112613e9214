use raytracing_demo::status::DrawStatus;
use raytracing_demo::timeline::{AcquireOutcome, FrameState, FrameTimeline, PresentOutcome, PreviousSignal};

#[test]
fn timed_out_acquire_skips_the_frame() {
    let mut t = FrameTimeline::new();
    t.uploads_submitted();
    assert_eq!(t.begin_frame(AcquireOutcome::TimedOut, 3), None);
    assert_eq!(t.state(), FrameState::Skipped);
    assert_eq!(t.end_frame(None), DrawStatus::Continue);
    assert_eq!(t.previous(), PreviousSignal::Submission);
}

#[test]
fn full_frame_runs_both_passes() {
    let mut t = FrameTimeline::new();
    t.uploads_submitted();
    let acquired = AcquireOutcome::Acquired { image: 1, suboptimal: false };
    assert_eq!(t.begin_frame(acquired, 3), Some(1));
    assert_eq!(t.state(), FrameState::Offscreen(1));
    assert_eq!(t.advance_pass(), 1);
    assert_eq!(t.state(), FrameState::Composite(1));
    assert_eq!(t.end_frame(Some(PresentOutcome::Presented)), DrawStatus::Continue);
    assert_eq!(t.state(), FrameState::Idle);
    assert_eq!(t.previous(), PreviousSignal::Submission);
}

#[test]
fn out_of_date_acquire_requests_recreation() {
    let mut t = FrameTimeline::new();
    assert_eq!(t.begin_frame(AcquireOutcome::OutOfDate, 2), None);
    assert_eq!(t.end_frame(None), DrawStatus::ShouldRecreateSwapchain);
    assert_eq!(t.state(), FrameState::Idle);
    assert_eq!(t.begin_frame(AcquireOutcome::TimedOut, 2), None);
    assert_eq!(t.end_frame(None), DrawStatus::Continue);
}

#[test]
fn failed_acquire_skips_without_request() {
    let mut t = FrameTimeline::new();
    assert_eq!(t.begin_frame(AcquireOutcome::Failed, 2), None);
    assert_eq!(t.end_frame(None), DrawStatus::Continue);
}

#[test]
fn image_outside_the_set_is_skipped() {
    let mut t = FrameTimeline::new();
    let acquired = AcquireOutcome::Acquired { image: 2, suboptimal: false };
    assert_eq!(t.begin_frame(acquired, 2), None);
    assert_eq!(t.state(), FrameState::Skipped);
    assert_eq!(t.end_frame(None), DrawStatus::Continue);
}

#[test]
fn suboptimal_image_is_drawn_then_recreated() {
    let mut t = FrameTimeline::new();
    let acquired = AcquireOutcome::Acquired { image: 0, suboptimal: true };
    assert_eq!(t.begin_frame(acquired, 2), Some(0));
    t.advance_pass();
    assert_eq!(t.end_frame(Some(PresentOutcome::Presented)), DrawStatus::ShouldRecreateSwapchain);
}

#[test]
fn stale_present_substitutes_a_complete_signal() {
    let mut t = FrameTimeline::new();
    t.uploads_submitted();
    t.begin_frame(AcquireOutcome::Acquired { image: 0, suboptimal: false }, 2);
    t.advance_pass();
    assert_eq!(t.end_frame(Some(PresentOutcome::OutOfDate)), DrawStatus::ShouldRecreateSwapchain);
    assert_eq!(t.previous(), PreviousSignal::Noop);
}

#[test]
fn failed_present_keeps_going() {
    let mut t = FrameTimeline::new();
    t.begin_frame(AcquireOutcome::Acquired { image: 0, suboptimal: false }, 1);
    t.advance_pass();
    assert_eq!(t.end_frame(Some(PresentOutcome::Failed)), DrawStatus::Continue);
    assert_eq!(t.previous(), PreviousSignal::Noop);
    assert_eq!(t.state(), FrameState::Idle);
}

#[test]
fn status_reports_recreation_request() {
    assert!(DrawStatus::ShouldRecreateSwapchain.requests_recreation());
    assert!(!DrawStatus::Continue.requests_recreation());
}

#[test]
fn timeline_starts_with_a_complete_signal() {
    let t = FrameTimeline::new();
    assert_eq!(t.state(), FrameState::Idle);
    assert_eq!(t.previous(), PreviousSignal::Noop);
}

#[test]
fn optimal_image_after_a_stale_frame_needs_no_rebuild() {
    let mut t = FrameTimeline::new();
    assert_eq!(t.begin_frame(AcquireOutcome::OutOfDate, 2), None);
    assert_eq!(t.end_frame(None), DrawStatus::ShouldRecreateSwapchain);
    let acquired = AcquireOutcome::Acquired { image: 1, suboptimal: false };
    assert_eq!(t.begin_frame(acquired, 2), Some(1));
    t.advance_pass();
    assert_eq!(t.end_frame(Some(PresentOutcome::Presented)), DrawStatus::Continue);
}
