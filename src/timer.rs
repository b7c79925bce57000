//! Repeating interval timers that gate the spawners.
use vstd::prelude::*;

verus! {

/// A repeating timer: it fires on the tick in which the time since it last
/// fired reaches its duration.
#[derive(Clone, Copy, Debug, PartialEq, Eq, Structural)]
pub struct IntervalTimer {
    /// Time accumulated since the timer last fired.
    pub elapsed: u64,
    pub duration: u64,
}

impl IntervalTimer {
    pub fn new(duration: u64) -> (r: IntervalTimer)
        ensures
            r.elapsed == 0,
            r.duration == duration,
    {
        IntervalTimer { elapsed: 0, duration }
    }

    /// Whether a tick of `dt` fires the timer.
    pub open spec fn spec_fires(self, dt: int) -> bool {
        self.elapsed + dt >= self.duration
    }

    /// The timer after a tick of `dt`: when it fires it keeps only the time
    /// beyond whole durations.
    pub open spec fn spec_ticked(self, dt: int) -> IntervalTimer {
        let total = self.elapsed + dt;
        IntervalTimer {
            elapsed: (if !self.spec_fires(dt) {
                total
            } else if self.duration > 0 {
                total % (self.duration as int)
            } else {
                0
            }) as u64,
            duration: self.duration,
        }
    }

    /// Advances the timer by `dt`; returns whether it fired.
    pub fn tick(&mut self, dt: u64) -> (fired: bool)
        ensures
            fired == old(self).spec_fires(dt as int),
            *final(self) == old(self).spec_ticked(dt as int),
    {
        let total: u128 = self.elapsed as u128 + dt as u128;
        if total >= self.duration as u128 {
            if self.duration > 0 {
                self.elapsed = (total % self.duration as u128) as u64;
            } else {
                self.elapsed = 0;
            }
            true
        } else {
            self.elapsed = total as u64;
            false
        }
    }

    /// Gives the timer a new duration; the time accumulated is kept.
    pub fn set_duration(&mut self, duration: u64)
        ensures
            final(self).elapsed == old(self).elapsed,
            final(self).duration == duration,
    {
        self.duration = duration;
    }
}

} // verus!
