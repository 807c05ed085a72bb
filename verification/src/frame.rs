//! Per-frame orchestration decisions.
//!
//! The embedder owns the GPU device, surface and buffers; this module
//! decides, from plain values, what each frame does: whether the surface
//! must be reconfigured for a new size, and how a failed surface
//! acquisition is classified — transient conditions get one reconfigure
//! and retry of the same frame, anything else is fatal.

use vstd::prelude::*;

use crate::camera::Camera;
use crate::camera::lemma_bounded_convergence;
use crate::camera::lemma_quiet_means_converged;
use crate::scheduler::Scheduler;
use crate::scheduler::lemma_signals_exactly_once;
use crate::scheduler::sched_after_tick;
use crate::scheduler::sched_after_ticks;
use crate::scheduler::sched_signal_count;
use crate::scheduler::sched_signals;

verus! {

/// The physical surface size last configured, so a resize is detected by
/// comparison and a matching size reconfigures nothing.
#[derive(Clone, Copy, PartialEq, Eq, Structural, Debug)]
pub struct SurfaceTracker {
    /// Width last configured, in pixels.
    pub width: u32,
    /// Height last configured, in pixels.
    pub height: u32,
}

/// Whether a size differs from the one last configured.
pub open spec fn needs_reconfigure_spec(t: SurfaceTracker, width: u32, height: u32) -> bool {
    !(t.width == width && t.height == height)
}

/// The tracker after configuring a size.
pub open spec fn configured_spec(t: SurfaceTracker, width: u32, height: u32) -> SurfaceTracker {
    SurfaceTracker { width, height }
}

impl SurfaceTracker {
    /// Track a surface first configured with the given size.
    pub fn new(width: u32, height: u32) -> (t: SurfaceTracker)
        ensures
            t.width == width && t.height == height,
    {
        SurfaceTracker { width, height }
    }

    /// Decide one (re)configuration: reconfigure the surface exactly when
    /// the size differs from the last configured one, and remember it.
    pub fn reconfigure_if_needed(&mut self, width: u32, height: u32) -> (reconfigure: bool)
        ensures
            reconfigure == needs_reconfigure_spec(*old(self), width, height),
            *final(self) == configured_spec(*old(self), width, height),
    {
        let reconfigure = !(self.width == width && self.height == height);
        self.width = width;
        self.height = height;
        reconfigure
    }
}

/// Resize idempotence: after one configuration decision for a size, a
/// second decision for the same size reconfigures nothing and leaves the
/// tracker untouched — repeating a configuration is a no-op.
pub proof fn lemma_reconfigure_idempotent(t: SurfaceTracker, width: u32, height: u32)
    ensures
        !needs_reconfigure_spec(configured_spec(t, width, height), width, height),
        configured_spec(configured_spec(t, width, height), width, height) == configured_spec(
            t,
            width,
            height,
        ),
{
}

/// Advance the animation by one frame: tick the camera, feed the
/// convergence outcome to the scheduler, and say whether this frame must
/// send the one cancellation token to the cadence driver.
pub fn advance_animation(cam: &mut Camera, sched: &mut Scheduler) -> (signal: bool)
    requires
        old(cam).wf(),
    ensures
        final(cam).wf(),
        *final(cam) == Camera::tick_spec(*old(cam)),
        *final(sched) == sched_after_tick(*old(sched), Camera::tick_converges(*old(cam))),
        signal == sched_signals(*old(sched), Camera::tick_converges(*old(cam))),
{
    let converged = cam.tick();
    sched.on_tick(converged)
}

/// One whole animation burst, end to end: a live camera fed to
/// `advance_animation` for 164 frames settles its zoom; the scheduler,
/// fed exactly those ticks' outcomes, sends the cancellation token
/// exactly once and finishes idle.
pub proof fn lemma_animation_burst_settles_and_signals_once(c: Camera, s: Scheduler)
    requires
        c.wf(),
        c.zooming,
        s.animating,
    ensures
        Camera::ticks_n(c, 164).spec_settled(),
        !Camera::ticks_n(c, 164).zooming,
        sched_signal_count(s, Camera::tick_outcomes(c, 164)) == 1,
        !sched_after_ticks(s, Camera::tick_outcomes(c, 164)).animating,
{
    lemma_bounded_convergence(c);
    lemma_quiet_means_converged(c, 164);
    let outcomes = Camera::tick_outcomes(c, 164);
    let i = choose|i: int|
        0 <= i < 164 && #[trigger] Camera::tick_converges(Camera::ticks_n(c, i as nat));
    assert(outcomes[i]);
    lemma_signals_exactly_once(s, outcomes);
}

/// How one surface acquisition ended, as the embedder reports it.
#[derive(Clone, Copy, PartialEq, Eq, Structural, Debug)]
pub enum AcquireStatus {
    /// A frame was acquired.
    Acquired,
    /// The surface no longer matches its configuration.
    Outdated,
    /// The surface was lost and must be reconfigured.
    Lost,
    /// The acquisition timed out.
    Timeout,
    /// The device is out of memory.
    OutOfMemory,
}

/// What the frame loop does next after an acquisition.
#[derive(Clone, Copy, PartialEq, Eq, Structural, Debug)]
pub enum FrameAction {
    /// Record, upload, draw and present this frame.
    Render,
    /// Reconfigure the surface and retry the same frame once.
    ReconfigureAndRetry,
    /// Unrecoverable: abort the session with a diagnostic.
    Abort,
}

/// Whether an acquisition failure is transient: only an outdated or lost
/// surface is, and is answered by reconfiguring and retrying.
pub open spec fn transient_spec(s: AcquireStatus) -> bool {
    s is Outdated || s is Lost
}

/// Classify one surface acquisition.  A success renders; a transient
/// failure gets one reconfigure-and-retry of the same frame; a second
/// failure of the same frame, or any other failure, is fatal.
pub fn classify_acquire(status: AcquireStatus, retried: bool) -> (action: FrameAction)
    ensures
        status is Acquired ==> action is Render,
        transient_spec(status) && !retried ==> action is ReconfigureAndRetry,
        transient_spec(status) && retried ==> action is Abort,
        !(status is Acquired) && !transient_spec(status) ==> action is Abort,
{
    match status {
        AcquireStatus::Acquired => FrameAction::Render,
        AcquireStatus::Outdated | AcquireStatus::Lost => {
            if retried {
                FrameAction::Abort
            } else {
                FrameAction::ReconfigureAndRetry
            }
        },
        AcquireStatus::Timeout | AcquireStatus::OutOfMemory => FrameAction::Abort,
    }
}

} // verus!
