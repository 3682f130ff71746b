//! A one-shot timer that accumulates elapsed time.

use vstd::prelude::*;

verus! {

/// A timer that counts elapsed time up to its duration and has then run
/// out, until it is started anew. Times are in nanoseconds.
#[derive(Clone, Copy, Debug, PartialEq, Eq, Structural)]
pub struct OneShotTimer {
    pub elapsed_nanos: u64,
    pub duration_nanos: u64,
}

/// The elapsed time after `delta` more nanoseconds: it grows until it
/// reaches the duration and stays there.
pub open spec fn ticked(elapsed: int, delta: int, duration: int) -> int {
    if elapsed >= duration {
        elapsed
    } else if elapsed + delta >= duration {
        duration
    } else {
        elapsed + delta
    }
}

impl OneShotTimer {
    /// The timer has run out.
    pub open spec fn finished(self) -> bool {
        self.elapsed_nanos >= self.duration_nanos
    }

    /// The timer after `delta_nanos` more have passed.
    pub open spec fn after(self, delta_nanos: u64) -> OneShotTimer {
        OneShotTimer {
            elapsed_nanos: ticked(
                self.elapsed_nanos as int,
                delta_nanos as int,
                self.duration_nanos as int,
            ) as u64,
            duration_nanos: self.duration_nanos,
        }
    }

    /// A timer of the given duration that has just been started.
    pub fn new(duration_nanos: u64) -> (timer: OneShotTimer)
        ensures
            timer == (OneShotTimer { elapsed_nanos: 0, duration_nanos }),
    {
        OneShotTimer { elapsed_nanos: 0, duration_nanos }
    }

    /// Whether the timer has run out.
    pub fn is_finished(&self) -> (r: bool)
        ensures
            r == self.finished(),
    {
        self.elapsed_nanos >= self.duration_nanos
    }

    /// Lets `delta_nanos` pass.
    pub fn tick(&mut self, delta_nanos: u64)
        ensures
            *final(self) == old(self).after(delta_nanos),
    {
        if self.elapsed_nanos < self.duration_nanos {
            if delta_nanos >= self.duration_nanos - self.elapsed_nanos {
                self.elapsed_nanos = self.duration_nanos;
            } else {
                self.elapsed_nanos = self.elapsed_nanos + delta_nanos;
            }
        }
    }

    /// Starts the timer anew.
    pub fn reset(&mut self)
        ensures
            *final(self) == (OneShotTimer {
                elapsed_nanos: 0,
                duration_nanos: old(self).duration_nanos,
            }),
    {
        self.elapsed_nanos = 0;
    }
}

} // verus!
