//! Reusable countdown primitive, driving spawn cadence, the invulnerability
//! window, reload cadence, ignition duration and the counter-attack
//! countdown. A timer accumulates elapsed milliseconds against a fixed
//! duration; a once-mode timer stops at the duration, a repeating timer
//! wraps around. `just_finished` records whether the duration was crossed
//! by the most recent `tick`.

use vstd::prelude::*;

verus! {

/// Largest accepted timer duration, in milliseconds.
pub const DURATION_LIMIT: i64 = 1_000_000_000;

/// Largest elapsed time a single tick may carry, in milliseconds.
pub const DT_LIMIT: i64 = 1_000_000;

#[derive(Clone, Copy, PartialEq, Eq, Structural, Debug)]
pub enum TimerMode {
    Once,
    Repeating,
}

#[derive(Clone, Copy, PartialEq, Eq, Structural, Debug)]
pub struct Timer {
    pub duration_ms: i64,
    pub elapsed_ms: i64,
    pub mode: TimerMode,
    pub just_finished: bool,
}

impl Timer {
    pub open spec fn wf(self) -> bool {
        &&& 0 < self.duration_ms <= DURATION_LIMIT
        &&& 0 <= self.elapsed_ms <= self.duration_ms
    }

    /// A once-mode timer is finished when it has reached its duration.
    pub open spec fn spec_finished(self) -> bool {
        self.elapsed_ms == self.duration_ms
    }

    pub fn new(duration_ms: i64, mode: TimerMode) -> (r: Timer)
        requires
            0 < duration_ms <= DURATION_LIMIT,
        ensures
            r == (Timer { duration_ms, elapsed_ms: 0, mode, just_finished: false }),
            r.wf(),
    {
        Timer { duration_ms, elapsed_ms: 0, mode, just_finished: false }
    }

    /// The value `tick` leaves behind: duration and mode are kept; a
    /// once-mode timer saturates at its duration and reports completion
    /// only on the tick that reaches it; a repeating timer wraps and
    /// reports completion on every tick that crosses the duration.
    pub open spec fn spec_tick(self, dt: int) -> Timer {
        match self.mode {
            TimerMode::Once => {
                if self.elapsed_ms == self.duration_ms {
                    Timer { just_finished: false, ..self }
                } else if self.elapsed_ms + dt >= self.duration_ms {
                    Timer { elapsed_ms: self.duration_ms, just_finished: true, ..self }
                } else {
                    Timer { elapsed_ms: (self.elapsed_ms + dt) as i64, just_finished: false, ..self }
                }
            },
            TimerMode::Repeating => {
                if self.elapsed_ms + dt >= self.duration_ms {
                    Timer {
                        elapsed_ms: ((self.elapsed_ms + dt) % (self.duration_ms as int)) as i64,
                        just_finished: true,
                        ..self
                    }
                } else {
                    Timer { elapsed_ms: (self.elapsed_ms + dt) as i64, just_finished: false, ..self }
                }
            },
        }
    }

    /// Advances the timer by `dt` milliseconds.
    pub fn tick(&mut self, dt: i64)
        requires
            old(self).wf(),
            0 <= dt <= DT_LIMIT,
        ensures
            *final(self) == old(self).spec_tick(dt as int),
            final(self).wf(),
    {
        match self.mode {
            TimerMode::Once => {
                if self.elapsed_ms == self.duration_ms {
                    self.just_finished = false;
                } else if dt >= self.duration_ms - self.elapsed_ms {
                    self.elapsed_ms = self.duration_ms;
                    self.just_finished = true;
                } else {
                    self.elapsed_ms = self.elapsed_ms + dt;
                    self.just_finished = false;
                }
            },
            TimerMode::Repeating => {
                if dt >= self.duration_ms - self.elapsed_ms {
                    self.elapsed_ms = (self.elapsed_ms + dt) % self.duration_ms;
                    self.just_finished = true;
                } else {
                    self.elapsed_ms = self.elapsed_ms + dt;
                    self.just_finished = false;
                }
            },
        }
    }

    /// Whether the most recent tick crossed the duration.
    pub fn just_finished(&self) -> (r: bool)
        ensures
            r == self.just_finished,
    {
        self.just_finished
    }

    /// Whether a once-mode timer has reached its duration.
    pub fn finished(&self) -> (r: bool)
        ensures
            r == self.spec_finished(),
    {
        self.elapsed_ms == self.duration_ms
    }

    /// Rewinds the timer to the start without touching duration or mode.
    pub fn reset(&mut self)
        ensures
            *final(self) == (Timer { elapsed_ms: 0, just_finished: false, ..*old(self) }),
    {
        self.elapsed_ms = 0;
        self.just_finished = false;
    }
}

} // verus!
