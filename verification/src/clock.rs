use vstd::prelude::*;
use std::time::Duration;

verus! {

/// A clock that ticks at a fixed rate and counts its ticks.
pub struct Clock {
    pub rate: Duration,
    pub ticks: u64,
}

impl Clock {
    /// A clock with the given tick rate that has not ticked yet.
    pub fn new(rate: Duration) -> (r: Clock)
        ensures
            r.rate == rate,
            r.ticks == 0,
    {
        Clock { rate: rate, ticks: 0 }
    }

    /// Waits for the next tick. The clock has no timer behind it yet, so
    /// this returns at once and leaves the clock as it is.
    pub fn tick(&self) {
    }
}

} // verus!
