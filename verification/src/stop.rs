//! The stop signal and the deadline timer.
//!
//! The stop signal is a one-shot, multi-subscriber notification: it flips
//! at most once, every reader of the shared state observes the same value,
//! and firing it again changes nothing. The deadline timer decides, tick
//! by tick, when the signal must fire: exactly when the elapsed run time
//! first reaches the configured duration.

use vstd::prelude::*;

verus! {

/// The shared one-shot stop flag. The process shares one value of this
/// type among all clients behind its broadcast primitive; every reader
/// created before the flip observes the flipped state.
pub struct StopSignal {
    pub fired: bool,
}

/// The state of the signal after a firing: stopped, whatever it held
/// before.
pub open spec fn spec_fire(s: StopSignal) -> StopSignal {
    StopSignal { fired: true }
}

impl StopSignal {
    /// A signal that has not fired.
    pub fn new() -> (s: Self)
        ensures
            !s.fired,
    {
        StopSignal { fired: false }
    }

    /// Fires the signal. Firing an already-fired signal leaves it exactly
    /// as it was.
    pub fn fire(&mut self)
        ensures
            *final(self) == spec_fire(*old(self)),
    {
        self.fired = true;
    }

    /// Whether the signal has fired. Every reader of the same state gets
    /// the same answer.
    pub fn is_stopped(&self) -> (r: bool)
        ensures
            r == self.fired,
    {
        self.fired
    }
}

/// Law: the stop signal is observed once. Firing it a second time has no
/// further effect — the state after two firings is the state after one,
/// and that state reads as stopped.
pub proof fn lemma_stop_observed_once(s: StopSignal)
    ensures
        spec_fire(spec_fire(s)) == spec_fire(s),
        spec_fire(s).fired,
{
}

/// The scenario-wide deadline timer. The process ticks it periodically
/// with the elapsed wall time; the timer answers, exactly once, that the
/// stop signal must fire — on the first tick at or past the configured
/// duration.
pub struct DeadlineTimer {
    pub duration_millis: u128,
    pub fired: bool,
}

impl DeadlineTimer {
    /// A timer for the given run duration.
    pub fn new(duration_millis: u128) -> (t: Self)
        ensures
            t.duration_millis == duration_millis,
            !t.fired,
    {
        DeadlineTimer { duration_millis, fired: false }
    }

    /// One periodic tick at `elapsed` milliseconds since the run began.
    /// Answers whether the stop signal must fire now: true exactly on the
    /// first tick whose elapsed time reaches the duration.
    pub fn tick(&mut self, elapsed: u128) -> (fire: bool)
        ensures
            final(self).duration_millis == old(self).duration_millis,
            fire == (elapsed >= old(self).duration_millis && !old(self).fired),
            final(self).fired == (old(self).fired || elapsed >= old(self).duration_millis),
    {
        if elapsed >= self.duration_millis && !self.fired {
            self.fired = true;
            true
        } else {
            if elapsed >= self.duration_millis {
                self.fired = true;
            }
            false
        }
    }
}

/// Whole percent of the run completed, capped at one hundred, as shown by
/// the periodic progress line.
pub fn progress_percent(elapsed: u64, duration: u64) -> (p: u64)
    requires
        duration > 0,
    ensures
        p == if elapsed >= duration { 100 as int } else { elapsed as int * 100 / duration as int },
        p <= 100,
{
    if elapsed >= duration {
        100
    } else {
        let wide: u128 = (elapsed as u128) * 100;
        let p = (wide / (duration as u128)) as u64;
        proof {
            let e = elapsed as int;
            let d = duration as int;
            assert(e * 100 / d < 100) by (nonlinear_arith)
                requires
                    0 <= e < d,
            ;
        }
        p
    }
}

} // verus!
