use vkrender::frame::{AcquireOutcome, AfterAcquire, AfterFlush, FlushOutcome, FrameControl, FrameStart};

#[test]
fn empty_window_skips_frame() {
    let mut f = FrameControl::new();
    assert_eq!(f.begin_frame(0, 600), FrameStart::Skip);
    f.request_recreate();
    assert_eq!(f.begin_frame(800, 0), FrameStart::Skip);
    assert!(f.recreate_swapchain);
}

#[test]
fn pending_rebuild_comes_first() {
    let mut f = FrameControl::new();
    assert_eq!(f.begin_frame(800, 600), FrameStart::Acquire);
    f.request_recreate();
    assert_eq!(f.begin_frame(800, 600), FrameStart::RecreateThenAcquire);
    f.swapchain_recreated();
    assert_eq!(f.begin_frame(800, 600), FrameStart::Acquire);
}

#[test]
fn acquire_outcomes() {
    let mut f = FrameControl::new();
    assert_eq!(f.acquired(AcquireOutcome::Acquired { suboptimal: false }), AfterAcquire::Draw);
    assert!(!f.recreate_swapchain);
    assert_eq!(f.acquired(AcquireOutcome::Acquired { suboptimal: true }), AfterAcquire::Draw);
    assert!(f.recreate_swapchain);
    let mut f = FrameControl::new();
    assert_eq!(f.acquired(AcquireOutcome::OutOfDate), AfterAcquire::Abandon);
    assert!(f.recreate_swapchain);
    let mut f = FrameControl::new();
    assert_eq!(f.acquired(AcquireOutcome::Failed), AfterAcquire::Fail);
    assert!(!f.recreate_swapchain);
}

#[test]
fn flush_outcomes() {
    let mut f = FrameControl::new();
    assert_eq!(f.flushed(FlushOutcome::Flushed), AfterFlush::KeepFuture);
    assert!(!f.recreate_swapchain);
    assert_eq!(f.flushed(FlushOutcome::Failed), AfterFlush::Fail);
    assert!(!f.recreate_swapchain);
    assert_eq!(f.flushed(FlushOutcome::OutOfDate), AfterFlush::FreshFuture);
    assert!(f.recreate_swapchain);
    assert_eq!(f.begin_frame(1, 1), FrameStart::RecreateThenAcquire);
}
