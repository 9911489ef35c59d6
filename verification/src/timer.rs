//! Countdown timers in fixed-point seconds.
//!
//! A once timer caps its elapsed time at the duration and reports
//! finished from then on; a repeating timer wraps and reports finished
//! only on the ticks in which it wrapped.

use vstd::prelude::*;
use crate::fx::{min_i, FX_LIM};

verus! {

#[derive(Clone, Copy, Debug, PartialEq, Eq, Structural)]
pub enum TimerMode {
    Once,
    Repeating,
}

#[derive(Clone, Copy, Debug, PartialEq, Eq, Structural)]
pub struct Timer {
    pub mode: TimerMode,
    /// Total duration, fixed-point seconds.
    pub duration: i64,
    /// Time accumulated so far, fixed-point seconds.
    pub elapsed: i64,
    /// Whether the last tick reached the duration (and, for a once timer,
    /// whether any earlier tick did).
    pub finished: bool,
}

impl Timer {
    /// Structural bounds every timer in the simulation keeps.
    pub open spec fn wf(self) -> bool {
        &&& 0 <= self.duration <= FX_LIM
        &&& 0 <= self.elapsed <= self.duration
        &&& (self.mode == TimerMode::Repeating ==> self.duration > 0)
    }

    /// The timer after one advance by `dt`.
    pub open spec fn ticked(self, dt: int) -> Timer {
        let total = self.elapsed + dt;
        if total >= self.duration {
            match self.mode {
                TimerMode::Once => Timer {
                    elapsed: self.duration,
                    finished: true,
                    ..self
                },
                TimerMode::Repeating => Timer {
                    elapsed: (total % (self.duration as int)) as i64,
                    finished: true,
                    ..self
                },
            }
        } else {
            Timer { elapsed: total as i64, finished: false, ..self }
        }
    }

    pub fn new(duration: i64, mode: TimerMode) -> (r: Timer)
        requires
            0 <= duration <= FX_LIM,
            mode == TimerMode::Repeating ==> duration > 0,
        ensures
            r == (Timer { mode, duration, elapsed: 0, finished: false }),
            r.wf(),
    {
        Timer { mode, duration, elapsed: 0, finished: false }
    }

    /// Advance by `dt`; exact per `ticked`.
    pub fn tick(&mut self, dt: i64)
        requires
            old(self).wf(),
            0 <= dt <= FX_LIM,
        ensures
            *final(self) == old(self).ticked(dt as int),
            final(self).wf(),
    {
        let total = self.elapsed + dt;
        if total >= self.duration {
            match self.mode {
                TimerMode::Once => {
                    self.elapsed = self.duration;
                    self.finished = true;
                },
                TimerMode::Repeating => {
                    let rem = (total as u64) % (self.duration as u64);
                    self.elapsed = rem as i64;
                    self.finished = true;
                },
            }
        } else {
            self.elapsed = total;
            self.finished = false;
        }
    }

    pub fn finished(&self) -> (r: bool)
        ensures
            r == self.finished,
    {
        self.finished
    }

    /// Time left before the duration is reached, fixed-point seconds.
    pub fn remaining(&self) -> (r: i64)
        requires
            self.wf(),
        ensures
            r == self.duration - self.elapsed,
    {
        self.duration - self.elapsed
    }

    /// The state after `n` ticks of `dt` each.
    pub open spec fn ticked_n(self, dt: int, n: nat) -> Timer
        decreases n,
    {
        if n == 0 {
            self
        } else {
            self.ticked_n(dt, (n - 1) as nat).ticked(dt)
        }
    }
}

/// One advance keeps a timer well formed and leaves its mode and
/// duration alone.
pub proof fn lemma_ticked_wf(t: Timer, dt: int)
    requires
        t.wf(),
        dt >= 0,
    ensures
        t.ticked(dt).wf(),
        t.ticked(dt).mode == t.mode,
        t.ticked(dt).duration == t.duration,
{
    let total = t.elapsed + dt;
    if total >= t.duration && t.mode == TimerMode::Repeating {
        vstd::arithmetic::div_mod::lemma_mod_division_less_than_divisor(total, t.duration as int);
        vstd::arithmetic::div_mod::lemma_mod_bound(total, t.duration as int);
    }
}

/// A once timer that has accumulated at least its duration reports
/// finished on every later tick as well: however many ticks elapse after
/// the deadline, the finished signal never clears.
pub proof fn lemma_once_finished_stable(t: Timer, dt: int)
    requires
        t.wf(),
        t.mode == TimerMode::Once,
        dt >= 0,
        t.elapsed == t.duration,
        t.finished,
    ensures
        t.ticked(dt) == t,
{
}

/// Repeated ticks of a once timer reach the duration once total elapsed
/// time does: after `n` ticks of `dt` with `n * dt >= duration`, the
/// timer reports finished.
pub proof fn lemma_once_runs_out(t: Timer, dt: int, n: nat)
    requires
        t.wf(),
        t.mode == TimerMode::Once,
        0 <= dt <= FX_LIM,
        t.elapsed + n * dt >= t.duration,
        n >= 1,
    ensures
        t.ticked_n(dt, n).finished,
        t.ticked_n(dt, n).wf(),
{
    lemma_once_wf_elapsed(t, dt, n);
    lemma_once_wf_elapsed(t, dt, (n - 1) as nat);
    assert((n - 1) * dt + dt == n * dt) by (nonlinear_arith);
}

/// Ticking keeps a once timer well formed and its elapsed time is the
/// capped sum of the increments.
proof fn lemma_once_wf_elapsed(t: Timer, dt: int, n: nat)
    requires
        t.wf(),
        t.mode == TimerMode::Once,
        0 <= dt <= FX_LIM,
    ensures
        t.ticked_n(dt, n).wf(),
        t.ticked_n(dt, n).mode == TimerMode::Once,
        t.ticked_n(dt, n).duration == t.duration,
        t.ticked_n(dt, n).elapsed == min_i(t.elapsed + n * dt, t.duration as int),
    decreases n,
{
    if n > 0 {
        lemma_once_wf_elapsed(t, dt, (n - 1) as nat);
        assert((n - 1) * dt + dt == n * dt) by (nonlinear_arith);
        assert(n * dt >= (n - 1) * dt) by (nonlinear_arith)
            requires
                dt >= 0,
                n >= 1,
        ;
    } else {
        assert(n * dt == 0) by (nonlinear_arith)
            requires
                n == 0,
        ;
    }
}

} // verus!
