//! A throttle: ready at most once per period.

use std::time::Instant;
use vstd::prelude::*;

verus! {

/// A point in time on the machine's monotonic clock. Nothing is known of
/// its value; it is kept to measure from.
#[verifier::external_type_specification]
#[verifier::external_body]
pub struct ExInstant(Instant);

/// Nanoseconds in the period of a new timer: one second.
pub const DEFAULT_PERIOD: u128 = 1_000_000_000;

/// What a timer is, apart from the instant it measures from. All
/// durations are in nanoseconds.
pub struct TimerView {
    pub delta: nat,
    pub period: nat,
    pub countdown: nat,
    pub ready: bool,
}

impl TimerView {
    /// A new timer: a period of one second, nothing left of it, and
    /// ready at once.
    pub open spec fn fresh() -> TimerView {
        TimerView { delta: 0, period: DEFAULT_PERIOD as nat, countdown: 0, ready: true }
    }

    /// Whether the countdown runs out when `delta` passes: it does when
    /// `delta` is more than what is left of it.
    pub open spec fn underflows(self, delta: nat) -> bool {
        self.countdown < delta
    }

    /// The timer after `delta` has passed. A countdown that runs out is
    /// armed again with the whole period, and the timer becomes ready; it
    /// stays ready until a reader takes the flag down.
    pub open spec fn elapse(self, delta: nat) -> TimerView {
        TimerView {
            delta,
            period: self.period,
            countdown: if self.underflows(delta) {
                self.period
            } else {
                (self.countdown - delta) as nat
            },
            ready: self.ready || self.underflows(delta),
        }
    }

    /// The timer after a reader has taken the ready flag down.
    pub open spec fn consume(self) -> TimerView {
        TimerView { ready: false, ..self }
    }

    /// The timer after the ticks in `deltas`, in their order, with no
    /// reader in between.
    pub open spec fn elapse_all(self, deltas: Seq<nat>) -> TimerView
        decreases deltas.len(),
    {
        if deltas.len() == 0 {
            self
        } else {
            self.elapse_all(deltas.drop_last()).elapse(deltas.last())
        }
    }
}

/// The sum of the durations in `deltas`.
pub open spec fn total(deltas: Seq<nat>) -> nat
    decreases deltas.len(),
{
    if deltas.len() == 0 {
        0
    } else {
        total(deltas.drop_last()) + deltas.last()
    }
}

/// Reports ready at most once per period. Durations are in nanoseconds.
pub struct Timer {
    /// When the timer last ticked.
    pub last: Instant,
    /// The time between the last two ticks.
    pub delta: u128,
    /// The least time between two reports of ready.
    pub period: u128,
    /// What is left of the period.
    pub countdown: u128,
    /// Set when the countdown runs out; the reader takes it down.
    pub ready: bool,
}

impl View for Timer {
    type V = TimerView;

    open spec fn view(&self) -> TimerView {
        TimerView {
            delta: self.delta as nat,
            period: self.period as nat,
            countdown: self.countdown as nat,
            ready: self.ready,
        }
    }
}

/// `Instant::now`: the present instant. It differs from call to call, so
/// nothing is stated of it.
#[verifier::external_body]
pub(crate) fn now() -> Instant {
    Instant::now()
}

/// `Instant::duration_since`, in nanoseconds: the time from `earlier` to
/// `later`, zero where `earlier` is the later one. It is what the clock
/// measured, so nothing is stated of it.
#[verifier::external_body]
pub(crate) fn nanos_between(later: &Instant, earlier: &Instant) -> u128 {
    later.duration_since(*earlier).as_nanos()
}

/// `Instant::elapsed`, in whole seconds: the time from `start` to the
/// present instant. It is what the clock measured, so nothing is stated
/// of it.
#[verifier::external_body]
pub(crate) fn seconds_since(start: &Instant) -> u64 {
    start.elapsed().as_secs()
}

impl Timer {
    /// A timer that starts now, with a period of one second; it is ready
    /// at once.
    pub fn new() -> (timer: Self)
        ensures
            timer@ == TimerView::fresh(),
    {
        Self::starting_at(now())
    }

    /// A timer that starts at `start`, with a period of one second; it is
    /// ready at once.
    pub fn starting_at(start: Instant) -> (timer: Self)
        ensures
            timer.last == start,
            timer@ == TimerView::fresh(),
    {
        Self { last: start, delta: 0, period: DEFAULT_PERIOD, countdown: 0, ready: true }
    }

    /// Ticks at the present instant: `delta` becomes the time since the
    /// last tick, whatever the clock says it is, and the timer elapses by
    /// that much.
    pub fn tick(&mut self)
        ensures
            final(self)@ == old(self)@.elapse(final(self)@.delta),
    {
        let at = now();
        let delta: u128 = nanos_between(&at, &self.last);
        self.tick_at(at, delta);
    }

    /// Ticks at `at`, which is `delta` nanoseconds after the last tick.
    pub fn tick_at(&mut self, at: Instant, delta: u128)
        ensures
            final(self).last == at,
            final(self)@ == old(self)@.elapse(delta as nat),
    {
        self.delta = delta;
        self.last = at;
        if self.countdown >= delta {
            self.countdown = self.countdown - delta;
        } else {
            self.ready = true;
            self.countdown = self.period;
        }
    }
}

impl Default for Timer {
    fn default() -> (timer: Self)
        ensures
            timer@ == TimerView::fresh(),
    {
        Self::new()
    }
}

/// A timer that was armed with its whole period and is not ready does not
/// become ready while the ticks since then add up to no more than the
/// period: it reports at most once per period.
pub proof fn quiet_within_period(armed: TimerView, deltas: Seq<nat>)
    requires
        armed.countdown == armed.period,
        !armed.ready,
        total(deltas) <= armed.period,
    ensures
        !armed.elapse_all(deltas).ready,
        armed.elapse_all(deltas).countdown == armed.period - total(deltas),
        armed.elapse_all(deltas).period == armed.period,
    decreases deltas.len(),
{
    if deltas.len() > 0 {
        quiet_within_period(armed, deltas.drop_last());
    }
}

/// Once ready, a timer stays ready whatever time passes, until a reader
/// takes the flag down.
pub proof fn ready_until_consumed(timer: TimerView, delta: nat)
    requires
        timer.ready,
    ensures
        timer.elapse(delta).ready,
        !timer.elapse(delta).consume().ready,
{
}

} // verus!
