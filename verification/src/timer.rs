//! A countdown that runs once: it counts elapsed time up to its duration and
//! then stays finished until it is reset.

use vstd::prelude::*;

verus! {

/// A countdown, in milliseconds.
#[derive(Clone, Copy, Debug, PartialEq, Eq, Structural)]
pub struct Timer {
    pub duration_ms: u64,
    pub elapsed_ms: u64,
    pub finished: bool,
    /// Whether the latest tick was the one on which the countdown finished.
    pub just_finished: bool,
}

impl Timer {
    /// A countdown of the given duration that has not started.
    pub open spec fn spec_new(duration_ms: u64) -> Timer {
        Timer { duration_ms, elapsed_ms: 0, finished: false, just_finished: false }
    }

    /// The countdown after `delta_ms` more milliseconds. A finished countdown
    /// only forgets that it has just finished. A running one adds the time;
    /// when that reaches the duration it stops there, finished and just
    /// finished.
    pub open spec fn spec_tick(self, delta_ms: u64) -> Timer {
        if self.finished {
            Timer { just_finished: false, ..self }
        } else if self.elapsed_ms + delta_ms >= self.duration_ms {
            Timer { elapsed_ms: self.duration_ms, finished: true, just_finished: true, ..self }
        } else {
            Timer {
                elapsed_ms: (self.elapsed_ms + delta_ms) as u64,
                finished: false,
                just_finished: false,
                ..self
            }
        }
    }

    /// The countdown started over.
    pub open spec fn spec_reset(self) -> Timer {
        Timer::spec_new(self.duration_ms)
    }

    /// A countdown of the given duration that has not started.
    pub fn new(duration_ms: u64) -> (t: Timer)
        ensures
            t == Timer::spec_new(duration_ms),
    {
        Timer { duration_ms, elapsed_ms: 0, finished: false, just_finished: false }
    }

    /// The duration in milliseconds of a number of seconds, held to the
    /// range of the type.
    pub open spec fn spec_secs_to_ms(secs: u64) -> u64 {
        if secs * 1000 > u64::MAX {
            u64::MAX
        } else {
            (secs * 1000) as u64
        }
    }

    /// A countdown of the given number of seconds that has not started.
    pub fn from_secs(secs: u64) -> (t: Timer)
        ensures
            t == Timer::spec_new(Timer::spec_secs_to_ms(secs)),
    {
        let duration_ms = if secs > u64::MAX / 1000 {
            u64::MAX
        } else {
            secs * 1000
        };
        Timer::new(duration_ms)
    }

    /// Advances the countdown by `delta_ms` milliseconds.
    pub fn tick(&mut self, delta_ms: u64)
        ensures
            *final(self) == old(self).spec_tick(delta_ms),
    {
        if self.finished {
            self.just_finished = false;
            return;
        }
        if delta_ms >= self.duration_ms || self.elapsed_ms >= self.duration_ms - delta_ms {
            self.elapsed_ms = self.duration_ms;
            self.finished = true;
            self.just_finished = true;
        } else {
            self.elapsed_ms = self.elapsed_ms + delta_ms;
            self.just_finished = false;
        }
    }

    /// Starts the countdown over.
    pub fn reset(&mut self)
        ensures
            *final(self) == old(self).spec_reset(),
    {
        self.elapsed_ms = 0;
        self.finished = false;
        self.just_finished = false;
    }

    /// Whether the countdown has reached its duration.
    pub fn finished(&self) -> (b: bool)
        ensures
            b == self.finished,
    {
        self.finished
    }

    /// Whether the latest tick was the one on which the countdown finished.
    pub fn just_finished(&self) -> (b: bool)
        ensures
            b == self.just_finished,
    {
        self.just_finished
    }
}

} // verus!
