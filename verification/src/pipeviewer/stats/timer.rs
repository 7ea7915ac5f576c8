//! The countdown that limits how often the progress line is drawn.

use std::time::Instant;
use vstd::prelude::*;

verus! {

/// A reading of the monotonic clock. Nothing of what it holds is visible here.
#[verifier::external_type_specification]
#[verifier::external_body]
pub struct ExInstant(std::time::Instant);

/// The time between two drawings of the progress line, in nanoseconds: 100 ms.
pub const PERIOD_NANOS: u128 = 100_000_000;

/// The longest time that a difference of two clock readings can hold, in
/// nanoseconds: `u64::MAX` seconds and 999,999,999 nanoseconds.
pub const MAX_NANOS: u128 = 18_446_744_073_709_551_615_999_999_999;

/// Reads the monotonic clock with `Instant::now`. The reading depends on
/// the moment of the call, so nothing is claimed of it.
#[verifier::external_body]
pub(crate) fn now() -> Instant {
    Instant::now()
}

/// The time from `earlier` to `later` in nanoseconds, by
/// `Instant::duration_since` and `Duration::as_nanos`. Claimed is only the
/// largest value that a `Duration` can hold.
#[verifier::external_body]
pub(crate) fn nanos_between(earlier: &Instant, later: &Instant) -> (nanos: u128)
    ensures
        nanos <= MAX_NANOS,
{
    later.duration_since(*earlier).as_nanos()
}

/// A countdown that is polled on every event and turns `ready` once a full
/// period has gone by since it last ran out. Times are in nanoseconds.
pub struct Timer {
    /// The clock reading of the last update.
    pub last_instant: Instant,
    /// The time between the last two updates.
    pub delta: u128,
    /// The length of one period.
    pub period: u128,
    /// The time left until `ready` is set again.
    pub count_down: u128,
    /// Whether a drawing is due. Whoever acts on it clears it.
    pub ready: bool,
}

/// The sum of a sequence of time steps.
pub open spec fn total_nanos(deltas: Seq<u128>) -> nat
    decreases deltas.len(),
{
    if deltas.len() == 0 {
        0
    } else {
        total_nanos(deltas.drop_last()) + deltas.last() as nat
    }
}

impl Timer {
    /// The timer after a step of `delta`: the countdown goes down by `delta`;
    /// where it would go below zero, `ready` is set and the countdown starts
    /// again at a full period.
    pub open spec fn ticked(self, delta: u128) -> Timer {
        Timer {
            last_instant: self.last_instant,
            delta,
            period: self.period,
            count_down: if delta <= self.count_down {
                (self.count_down - delta) as u128
            } else {
                self.period
            },
            ready: self.ready || delta > self.count_down,
        }
    }

    /// The timer after the steps `deltas`, taken one after another.
    pub open spec fn after(self, deltas: Seq<u128>) -> Timer
        decreases deltas.len(),
    {
        if deltas.len() == 0 {
            self
        } else {
            self.after(deltas.drop_last()).ticked(deltas.last())
        }
    }

    /// A timer with a period of 100 ms that is ready: the first event is
    /// always drawn.
    pub fn new() -> (timer: Timer)
        ensures
            timer.delta == 0,
            timer.period == PERIOD_NANOS,
            timer.count_down == 0,
            timer.ready,
    {
        Timer { last_instant: now(), delta: 0, period: PERIOD_NANOS, count_down: 0, ready: true }
    }

    /// Advances the timer by `delta` nanoseconds.
    pub fn tick(&mut self, delta: u128)
        ensures
            *final(self) == old(self).ticked(delta),
    {
        self.delta = delta;
        match self.count_down.checked_sub(delta) {
            Some(left) => {
                self.count_down = left;
            },
            None => {
                self.ready = true;
                self.count_down = self.period;
            },
        }
    }

    /// Reads the clock and advances the timer by the time since the last
    /// update, which `delta` then holds.
    pub fn update(&mut self)
        ensures
            final(self).delta <= MAX_NANOS,
            *final(self) == (Timer {
                last_instant: final(self).last_instant,
                ..old(self).ticked(final(self).delta)
            }),
    {
        let now = now();
        let delta = nanos_between(&self.last_instant, &now);
        self.last_instant = now;
        self.tick(delta);
    }

    /// While the steps taken add up to no more than the countdown, `ready`
    /// stays as it was and the countdown holds what is left.
    pub proof fn lemma_waits(self, deltas: Seq<u128>)
        requires
            total_nanos(deltas) <= self.count_down,
        ensures
            self.after(deltas).ready == self.ready,
            self.after(deltas).count_down == self.count_down - total_nanos(deltas),
            self.after(deltas).period == self.period,
        decreases deltas.len(),
    {
        if deltas.len() > 0 {
            self.lemma_waits(deltas.drop_last());
        }
    }

    /// A timer that was not ready is ready after a run of steps exactly when
    /// the steps add up to more than the countdown: bursts of short steps
    /// count together, and no step is lost.
    pub proof fn lemma_fires(self, deltas: Seq<u128>)
        requires
            !self.ready,
        ensures
            self.after(deltas).ready <==> total_nanos(deltas) > self.count_down,
        decreases deltas.len(),
    {
        if deltas.len() > 0 {
            let front = deltas.drop_last();
            self.lemma_fires(front);
            if total_nanos(front) <= self.count_down {
                self.lemma_waits(front);
            }
        }
    }
}

} // verus!
