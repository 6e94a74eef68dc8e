use vstd::prelude::*;

verus! {

/// The swapchain bookkeeping that carries from frame to frame.
#[derive(Clone, Copy, Debug, PartialEq, Eq, Structural)]
pub struct FrameControl {
    /// The swapchain no longer fits the window or the settings and must be
    /// rebuilt before the next image is acquired.
    pub recreate_swapchain: bool,
}

/// How a frame starts.
#[derive(Clone, Copy, Debug, PartialEq, Eq, Structural)]
pub enum FrameStart {
    /// The window has no area: draw nothing this frame.
    Skip,
    /// Rebuild the swapchain at the window's size, then acquire an image.
    RecreateThenAcquire,
    /// Acquire an image from the current swapchain.
    Acquire,
}

/// What acquiring the next swapchain image gave.
#[derive(Clone, Copy, Debug, PartialEq, Eq, Structural)]
pub enum AcquireOutcome {
    /// An image was acquired; `suboptimal` when the swapchain no longer
    /// matches the surface exactly.
    Acquired { suboptimal: bool },
    /// The swapchain no longer matches the surface.
    OutOfDate,
    /// Any other error.
    Failed,
}

/// What to do after acquiring.
#[derive(Clone, Copy, Debug, PartialEq, Eq, Structural)]
pub enum AfterAcquire {
    /// Record and submit this frame's commands.
    Draw,
    /// Give up this frame.
    Abandon,
    /// Stop with an error.
    Fail,
}

/// What submitting and presenting the frame gave.
#[derive(Clone, Copy, Debug, PartialEq, Eq, Structural)]
pub enum FlushOutcome {
    Flushed,
    OutOfDate,
    Failed,
}

/// What to keep as the end of the previous frame after flushing.
#[derive(Clone, Copy, Debug, PartialEq, Eq, Structural)]
pub enum AfterFlush {
    /// Keep the future of the frame just submitted.
    KeepFuture,
    /// Start again from a fresh "now" future.
    FreshFuture,
    /// Stop with an error.
    Fail,
}

/// How a frame starts when the window is `width` by `height` and a rebuild
/// is or is not pending.
pub open spec fn start_spec(recreate: bool, width: u32, height: u32) -> FrameStart {
    if width == 0 || height == 0 {
        FrameStart::Skip
    } else if recreate {
        FrameStart::RecreateThenAcquire
    } else {
        FrameStart::Acquire
    }
}

/// Whether a rebuild is pending after acquiring gave `outcome`.
pub open spec fn recreate_after_acquire(recreate: bool, outcome: AcquireOutcome) -> bool {
    match outcome {
        AcquireOutcome::Acquired { suboptimal } => recreate || suboptimal,
        AcquireOutcome::OutOfDate => true,
        AcquireOutcome::Failed => recreate,
    }
}

/// The step after acquiring gave `outcome`.
pub open spec fn after_acquire_spec(outcome: AcquireOutcome) -> AfterAcquire {
    match outcome {
        AcquireOutcome::Acquired { .. } => AfterAcquire::Draw,
        AcquireOutcome::OutOfDate => AfterAcquire::Abandon,
        AcquireOutcome::Failed => AfterAcquire::Fail,
    }
}

/// Whether a rebuild is pending after flushing gave `outcome`.
pub open spec fn recreate_after_flush(recreate: bool, outcome: FlushOutcome) -> bool {
    match outcome {
        FlushOutcome::OutOfDate => true,
        _ => recreate,
    }
}

/// The step after flushing gave `outcome`.
pub open spec fn after_flush_spec(outcome: FlushOutcome) -> AfterFlush {
    match outcome {
        FlushOutcome::Flushed => AfterFlush::KeepFuture,
        FlushOutcome::OutOfDate => AfterFlush::FreshFuture,
        FlushOutcome::Failed => AfterFlush::Fail,
    }
}

impl FrameControl {
    /// Nothing to rebuild yet.
    pub fn new() -> (res: Self)
        ensures
            !res.recreate_swapchain,
    {
        FrameControl { recreate_swapchain: false }
    }

    /// Asks for the swapchain to be rebuilt before the next frame (the window
    /// was resized or the present mode changed).
    pub fn request_recreate(&mut self)
        ensures
            final(self).recreate_swapchain,
    {
        self.recreate_swapchain = true;
    }

    /// Decides how a frame starts for a window of `width` by `height`.
    pub fn begin_frame(&self, width: u32, height: u32) -> (res: FrameStart)
        ensures
            res == start_spec(self.recreate_swapchain, width, height),
    {
        if width == 0 || height == 0 {
            FrameStart::Skip
        } else if self.recreate_swapchain {
            FrameStart::RecreateThenAcquire
        } else {
            FrameStart::Acquire
        }
    }

    /// The swapchain was rebuilt.
    pub fn swapchain_recreated(&mut self)
        ensures
            !final(self).recreate_swapchain,
    {
        self.recreate_swapchain = false;
    }

    /// Follows the outcome of acquiring an image: an out-of-date or
    /// suboptimal swapchain is rebuilt next frame; only an acquired image is
    /// drawn.
    pub fn acquired(&mut self, outcome: AcquireOutcome) -> (res: AfterAcquire)
        ensures
            res == after_acquire_spec(outcome),
            final(self).recreate_swapchain == recreate_after_acquire(
                old(self).recreate_swapchain,
                outcome,
            ),
    {
        match outcome {
            AcquireOutcome::Acquired { suboptimal } => {
                if suboptimal {
                    self.recreate_swapchain = true;
                }
                AfterAcquire::Draw
            },
            AcquireOutcome::OutOfDate => {
                self.recreate_swapchain = true;
                AfterAcquire::Abandon
            },
            AcquireOutcome::Failed => AfterAcquire::Fail,
        }
    }

    /// Follows the outcome of submitting and presenting the frame.
    pub fn flushed(&mut self, outcome: FlushOutcome) -> (res: AfterFlush)
        ensures
            res == after_flush_spec(outcome),
            final(self).recreate_swapchain == recreate_after_flush(
                old(self).recreate_swapchain,
                outcome,
            ),
            outcome != FlushOutcome::OutOfDate ==> final(self).recreate_swapchain
                == old(self).recreate_swapchain,
            outcome == FlushOutcome::OutOfDate ==> final(self).recreate_swapchain,
    {
        match outcome {
            FlushOutcome::Flushed => AfterFlush::KeepFuture,
            FlushOutcome::OutOfDate => {
                self.recreate_swapchain = true;
                AfterFlush::FreshFuture
            },
            FlushOutcome::Failed => AfterFlush::Fail,
        }
    }
}

/// A swapchain found out of date, when acquiring or when presenting, is
/// rebuilt at the start of the next frame that has a visible window, and a
/// suboptimal one likewise; a rebuilt swapchain is not rebuilt again until
/// something asks for it.
pub proof fn law_out_of_date_rebuilds(recreate: bool, width: u32, height: u32, suboptimal: bool)
    requires
        width != 0,
        height != 0,
    ensures
        start_spec(recreate_after_acquire(recreate, AcquireOutcome::OutOfDate), width, height)
            == FrameStart::RecreateThenAcquire,
        start_spec(recreate_after_flush(recreate, FlushOutcome::OutOfDate), width, height)
            == FrameStart::RecreateThenAcquire,
        suboptimal ==> start_spec(
            recreate_after_acquire(recreate, AcquireOutcome::Acquired { suboptimal }),
            width,
            height,
        ) == FrameStart::RecreateThenAcquire,
        start_spec(false, width, height) == FrameStart::Acquire,
{
}

/// A frame is drawn only when an image was acquired, and a window without
/// area never starts one.
pub proof fn law_draw_needs_image(outcome: AcquireOutcome, recreate: bool, width: u32)
    ensures
        after_acquire_spec(outcome) == AfterAcquire::Draw <==> outcome is Acquired,
        start_spec(recreate, width, 0) == FrameStart::Skip,
        start_spec(recreate, 0, width) == FrameStart::Skip,
{
}

/// Flushing only ever adds a rebuild: a successful or failed flush leaves a
/// pending rebuild pending and adds none, and an out-of-date one asks for
/// one. So a swapchain that was acquired suboptimal and then flushed
/// successfully is still rebuilt at the next frame with a visible window,
/// while a clean acquire and flush leaves the next frame to just acquire.
pub proof fn law_flush_keeps_pending_rebuild(recreate: bool, width: u32, height: u32)
    requires
        width != 0,
        height != 0,
    ensures
        recreate_after_flush(recreate, FlushOutcome::Flushed) == recreate,
        recreate_after_flush(recreate, FlushOutcome::Failed) == recreate,
        recreate_after_flush(recreate, FlushOutcome::OutOfDate),
        start_spec(
            recreate_after_flush(
                recreate_after_acquire(false, AcquireOutcome::Acquired { suboptimal: true }),
                FlushOutcome::Flushed,
            ),
            width,
            height,
        ) == FrameStart::RecreateThenAcquire,
        start_spec(
            recreate_after_flush(
                recreate_after_acquire(false, AcquireOutcome::Acquired { suboptimal: false }),
                FlushOutcome::Flushed,
            ),
            width,
            height,
        ) == FrameStart::Acquire,
{
}

/// Acquiring never clears a pending rebuild, and asks for one exactly when
/// the swapchain was out of date or suboptimal.
pub proof fn law_acquire_only_adds_rebuild(recreate: bool, outcome: AcquireOutcome)
    ensures
        recreate ==> recreate_after_acquire(recreate, outcome),
        recreate_after_acquire(false, outcome) <==> (outcome == AcquireOutcome::OutOfDate || outcome
            == (AcquireOutcome::Acquired { suboptimal: true })),
{
}

/// Each outcome has its own next step: a frame is abandoned exactly when the
/// swapchain was out of date, and stops with an error exactly when
/// acquiring failed; after presenting, the new future is kept exactly on
/// success, a fresh one is started exactly when out of date.
pub proof fn law_steps_per_outcome(a: AcquireOutcome, f: FlushOutcome)
    ensures
        after_acquire_spec(a) == AfterAcquire::Abandon <==> a == AcquireOutcome::OutOfDate,
        after_acquire_spec(a) == AfterAcquire::Fail <==> a == AcquireOutcome::Failed,
        after_flush_spec(f) == AfterFlush::KeepFuture <==> f == FlushOutcome::Flushed,
        after_flush_spec(f) == AfterFlush::FreshFuture <==> f == FlushOutcome::OutOfDate,
        after_flush_spec(f) == AfterFlush::Fail <==> f == FlushOutcome::Failed,
{
}

} // verus!
