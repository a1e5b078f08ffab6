//! Countdown and repeating timers, counted in microseconds.

use vstd::prelude::*;

verus! {

/// How a timer behaves once its duration has elapsed.
#[derive(Clone, Copy, Debug, PartialEq, Eq, Structural)]
pub enum TimerMode {
    /// Runs to its duration once and then stays finished.
    Once,
    /// Starts over each time its duration has elapsed.
    Repeating,
}

/// Longest duration, in microseconds, that a timer can be given.
pub const MAX_DURATION: u64 = 0x4000_0000_0000_0000;

/// Tracks elapsed time against a duration.
#[derive(Clone, Copy, Debug, PartialEq, Eq, Structural)]
pub struct Timer {
    /// Time to run, in microseconds.
    pub duration: u64,
    /// Time run so far, in microseconds.
    pub elapsed: u64,
    pub mode: TimerMode,
    /// Whether the duration has been reached; of a repeating timer, by the last tick.
    pub finished: bool,
    /// Whether the last tick reached the duration.
    pub just_finished: bool,
}

impl Timer {
    /// The elapsed time never passes the duration, and the duration is in range.
    pub open spec fn wf(self) -> bool {
        self.elapsed <= self.duration <= MAX_DURATION
    }

    /// A timer that has not run yet.
    pub open spec fn fresh(duration: u64, mode: TimerMode) -> Timer {
        Timer { duration, elapsed: 0, mode, finished: false, just_finished: false }
    }

    /// The timer after `dt` more microseconds.
    ///
    /// A finished one-shot timer stays as it is. Otherwise the elapsed time
    /// grows by `dt`; on reaching the duration a one-shot timer stops there,
    /// and a repeating timer keeps what is left over after whole periods.
    pub open spec fn ticked(self, dt: u32) -> Timer {
        let total = self.elapsed + dt;
        if self.mode == TimerMode::Once && self.finished {
            Timer { just_finished: false, ..self }
        } else if total < self.duration {
            Timer { elapsed: total as u64, finished: false, just_finished: false, ..self }
        } else if self.mode == TimerMode::Once {
            Timer { elapsed: self.duration, finished: true, just_finished: true, ..self }
        } else if self.duration == 0 {
            Timer { elapsed: 0, finished: true, just_finished: true, ..self }
        } else {
            Timer {
                elapsed: (total % (self.duration as int)) as u64,
                finished: true,
                just_finished: true,
                ..self
            }
        }
    }

    /// Time left until the duration is reached, in microseconds.
    pub open spec fn remaining_micros(self) -> int {
        self.duration - self.elapsed
    }

    /// Time left in whole seconds, rounded up.
    pub open spec fn remaining_secs_ceil(self) -> int {
        (self.remaining_micros() + 999_999) / 1_000_000
    }

    /// Creates a timer that has not run yet.
    pub fn new(duration: u64, mode: TimerMode) -> (t: Timer)
        requires
            duration <= MAX_DURATION,
        ensures
            t == Timer::fresh(duration, mode),
            t.wf(),
    {
        Timer { duration, elapsed: 0, mode, finished: false, just_finished: false }
    }

    /// Tests at run time whether the timer is well formed.
    pub fn is_wf(&self) -> (b: bool)
        ensures
            b == self.wf(),
    {
        self.elapsed <= self.duration && self.duration <= MAX_DURATION
    }

    /// Advances the timer by `dt` microseconds.
    pub fn tick(&mut self, dt: u32)
        requires
            old(self).wf(),
        ensures
            *final(self) == old(self).ticked(dt),
            final(self).wf(),
    {
        if self.mode == TimerMode::Once && self.finished {
            self.just_finished = false;
            return ;
        }
        let total: u64 = self.elapsed + dt as u64;
        if total < self.duration {
            self.elapsed = total;
            self.finished = false;
            self.just_finished = false;
        } else {
            self.finished = true;
            self.just_finished = true;
            if self.mode == TimerMode::Once {
                self.elapsed = self.duration;
            } else if self.duration == 0 {
                self.elapsed = 0;
            } else {
                self.elapsed = total % self.duration;
            }
        }
    }

    /// Whether the duration has been reached.
    pub fn finished(&self) -> (b: bool)
        ensures
            b == self.finished,
    {
        self.finished
    }

    /// Whether the last tick reached the duration.
    pub fn just_finished(&self) -> (b: bool)
        ensures
            b == self.just_finished,
    {
        self.just_finished
    }

    /// Time left until the duration is reached, in microseconds.
    pub fn remaining(&self) -> (r: u64)
        requires
            self.wf(),
        ensures
            r == self.remaining_micros(),
    {
        self.duration - self.elapsed
    }

    /// Time left in whole seconds, rounded up.
    pub fn remaining_secs(&self) -> (r: u64)
        requires
            self.wf(),
        ensures
            r == self.remaining_secs_ceil(),
    {
        (self.duration - self.elapsed + 999_999) / 1_000_000
    }

    /// Puts the timer back to where it started.
    pub fn reset(&mut self)
        ensures
            *final(self) == Timer::fresh(old(self).duration, old(self).mode),
    {
        self.elapsed = 0;
        self.finished = false;
        self.just_finished = false;
    }
}

/// A one-shot timer is finished exactly when no time remains, once it has
/// been ticked.
pub proof fn once_timer_finishes_when_nothing_remains(t: Timer, dt: u32)
    requires
        t.wf(),
        t.mode == TimerMode::Once,
        t.finished <==> t.remaining_micros() == 0,
    ensures
        t.ticked(dt).finished <==> t.ticked(dt).remaining_micros() == 0,
        t.ticked(dt).remaining_micros() <= t.remaining_micros(),
{
}

} // verus!
