//! A repeating countdown measured in integer time units (milliseconds in the
//! prototypes). It drives the rock and ship spawners and the turn clock: each
//! tick advances the elapsed time, and when a period boundary is crossed the
//! timer reports that it just finished and wraps around.

use vstd::prelude::*;

verus! {

#[derive(Clone, Copy, Debug, PartialEq, Eq, Structural)]
pub struct RepeatingTimer {
    pub period: u64,
    pub elapsed: u64,
}

impl RepeatingTimer {
    /// The period is positive and the elapsed time has been wrapped below it.
    pub open spec fn wf(self) -> bool {
        0 < self.period && self.elapsed < self.period
    }

    pub fn new(period: u64) -> (r: RepeatingTimer)
        requires
            0 < period,
        ensures
            r.wf(),
            r.period == period,
            r.elapsed == 0,
    {
        RepeatingTimer { period, elapsed: 0 }
    }

    /// Advance the timer by `delta` time units. Returns true exactly when the
    /// tick reached or crossed the end of the period; the elapsed time then
    /// wraps, so a long tick may swallow whole periods, as a repeating
    /// engine timer does.
    pub fn tick(&mut self, delta: u64) -> (finished: bool)
        requires
            old(self).wf(),
            old(self).elapsed + delta <= u64::MAX,
        ensures
            final(self).wf(),
            final(self).period == old(self).period,
            finished == (old(self).elapsed + delta >= old(self).period),
            final(self).elapsed == (old(self).elapsed + delta) % (old(self).period as int),
    {
        let total = self.elapsed + delta;
        let finished = total >= self.period;
        self.elapsed = total % self.period;
        finished
    }
}

} // verus!
