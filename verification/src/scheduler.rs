//! The animation scheduler.
//!
//! While a zoom transition is in flight the viewer keeps a cadence driver
//! alive: a background task that asks for a redraw once per fixed interval
//! until it is cancelled.  This module is the decision core of that
//! machinery: a state machine from `Idle` to `Animating` and back, with a
//! generation counter so a wheel event during an animation extends the
//! running cadence instead of racing a second driver against the first.
//!
//! The embedder owns the actual thread and channel; it consults
//! `on_zoom_input` before spawning a driver, has the driver poll
//! `should_redraw` before each redraw request, and feeds every tick's
//! convergence outcome to `on_tick`, which says when to send the one
//! cancellation token.

use vstd::prelude::*;

verus! {

/// Decision state of the animation cadence.
#[derive(Clone, Copy, PartialEq, Eq, Structural, Debug)]
pub struct Scheduler {
    /// A zoom transition is in flight and a cadence driver should run.
    pub animating: bool,
    /// Bumped whenever a new cadence driver starts, so a stale driver
    /// that missed its cancellation stops at its next poll.
    pub generation: u64,
}

/// The scheduler after feeding one tick's convergence outcome.
pub open spec fn sched_after_tick(s: Scheduler, converged: bool) -> Scheduler {
    Scheduler { animating: s.animating && !converged, generation: s.generation }
}

/// Whether feeding this outcome makes the scheduler send the one
/// cancellation token: only on the tick that ends a live animation.
pub open spec fn sched_signals(s: Scheduler, converged: bool) -> bool {
    s.animating && converged
}

impl Scheduler {
    /// The idle scheduler of a fresh viewer.
    pub fn new() -> (s: Scheduler)
        ensures
            !s.animating,
            s.generation == 0,
    {
        Scheduler { animating: false, generation: 0 }
    }

    /// A zoom-changing input arrived.  When idle, go to `Animating` and
    /// hand the embedder the generation a new cadence driver must carry;
    /// when already animating, change nothing — the running driver keeps
    /// the cadence and no second one starts.
    pub fn on_zoom_input(&mut self) -> (start: Option<u64>)
        requires
            old(self).generation < u64::MAX,
        ensures
            final(self).animating,
            old(self).animating ==> *final(self) == *old(self) && start is None,
            !old(self).animating ==> final(self).generation == old(self).generation + 1 && start
                == Some(final(self).generation),
    {
        if self.animating {
            None
        } else {
            self.animating = true;
            self.generation = self.generation + 1;
            Some(self.generation)
        }
    }

    /// The cadence driver's non-blocking poll: keep requesting redraws
    /// only while the animation is live and this driver is the current
    /// generation.
    pub fn should_redraw(&self, driver_generation: u64) -> (r: bool)
        ensures
            r == (self.animating && self.generation == driver_generation),
    {
        self.animating && self.generation == driver_generation
    }

    /// Feed one tick's convergence outcome.  Returns whether to send the
    /// cancellation token: exactly on the tick that ends a live
    /// animation, and never after.
    pub fn on_tick(&mut self, converged: bool) -> (signal: bool)
        ensures
            *final(self) == sched_after_tick(*old(self), converged),
            signal == sched_signals(*old(self), converged),
    {
        let signal = self.animating && converged;
        if converged {
            self.animating = false;
        }
        signal
    }
}

/// The scheduler after feeding a whole run of tick outcomes.
pub open spec fn sched_after_ticks(s: Scheduler, outcomes: Seq<bool>) -> Scheduler
    decreases outcomes.len(),
{
    if outcomes.len() == 0 {
        s
    } else {
        sched_after_ticks(sched_after_tick(s, outcomes[0]), outcomes.skip(1))
    }
}

/// How many of a run of tick outcomes make the scheduler signal.
pub open spec fn sched_signal_count(s: Scheduler, outcomes: Seq<bool>) -> int
    decreases outcomes.len(),
{
    if outcomes.len() == 0 {
        0
    } else {
        (if sched_signals(s, outcomes[0]) {
            1int
        } else {
            0int
        }) + sched_signal_count(sched_after_tick(s, outcomes[0]), outcomes.skip(1))
    }
}

/// An idle scheduler stays idle and never signals, however many tick
/// outcomes it is fed.
pub proof fn lemma_idle_stays_idle(s: Scheduler, outcomes: Seq<bool>)
    requires
        !s.animating,
    ensures
        !sched_after_ticks(s, outcomes).animating,
        sched_signal_count(s, outcomes) == 0,
    decreases outcomes.len(),
{
    if outcomes.len() > 0 {
        lemma_idle_stays_idle(sched_after_tick(s, outcomes[0]), outcomes.skip(1));
    }
}

/// Between two zoom inputs the scheduler leaves `Animating` at most once:
/// over any run of tick outcomes it sends at most one cancellation token,
/// whatever the outcomes are.
pub proof fn lemma_signals_at_most_once(s: Scheduler, outcomes: Seq<bool>)
    ensures
        0 <= sched_signal_count(s, outcomes) <= 1,
    decreases outcomes.len(),
{
    if outcomes.len() > 0 {
        if sched_signals(s, outcomes[0]) {
            lemma_idle_stays_idle(sched_after_tick(s, outcomes[0]), outcomes.skip(1));
        } else {
            lemma_signals_at_most_once(sched_after_tick(s, outcomes[0]), outcomes.skip(1));
        }
    }
}

/// A live animation whose ticks do converge signals exactly once: one
/// token, on the first converging tick, and the scheduler is idle after.
pub proof fn lemma_signals_exactly_once(s: Scheduler, outcomes: Seq<bool>)
    requires
        s.animating,
        exists|i: int| 0 <= i < outcomes.len() && outcomes[i],
    ensures
        sched_signal_count(s, outcomes) == 1,
        !sched_after_ticks(s, outcomes).animating,
    decreases outcomes.len(),
{
    if sched_signals(s, outcomes[0]) {
        lemma_idle_stays_idle(sched_after_tick(s, outcomes[0]), outcomes.skip(1));
    } else {
        let i = choose|i: int| 0 <= i < outcomes.len() && outcomes[i];
        assert(outcomes.skip(1)[i - 1]);
        lemma_signals_exactly_once(sched_after_tick(s, outcomes[0]), outcomes.skip(1));
    }
}

} // verus!
