//! The statistics sink: what invocations have cost and how long they took.

use vstd::prelude::*;
use crate::error::ExecError;

verus! {

/// What a [`Statistics`] holds, as numbers.
pub struct StatisticsView {
    /// The cost recorded so far.
    pub cost: nat,
    /// The time recorded so far, in nanoseconds.
    pub time: nat,
}

/// An accumulator of the cost and the time of invocations.
///
/// It belongs to the caller. An executor that is bound to it borrows it
/// mutably for as long as the executor lives, so no second executor can be
/// bound to it meanwhile. Both counters stop at the largest `u64`.
#[derive(Debug, PartialEq, Eq)]
pub struct Statistics {
    cost: u64,
    time: u64,
}

impl View for Statistics {
    type V = StatisticsView;

    closed spec fn view(&self) -> StatisticsView {
        StatisticsView { cost: self.cost as nat, time: self.time as nat }
    }
}

/// The sum of a counter and a delta, stopped at the largest `u64`.
pub open spec fn saturated(counter: nat, delta: nat) -> nat {
    if counter + delta <= u64::MAX {
        counter + delta
    } else {
        u64::MAX as nat
    }
}

impl Statistics {
    /// A sink with nothing recorded.
    pub fn new() -> (r: Result<Statistics, ExecError>)
        ensures
            r matches Ok(s) && s@.cost == 0 && s@.time == 0,
    {
        Ok(Statistics { cost: 0, time: 0 })
    }

    /// The cost recorded so far.
    pub fn cost(&self) -> (c: u64)
        ensures
            c == self@.cost,
    {
        self.cost
    }

    /// The time recorded so far, in nanoseconds.
    pub fn time(&self) -> (t: u64)
        ensures
            t == self@.time,
    {
        self.time
    }

    /// Adds `delta` to the cost.
    pub fn record_cost(&mut self, delta: u64)
        ensures
            final(self)@.cost == saturated(old(self)@.cost, delta as nat),
            final(self)@.time == old(self)@.time,
    {
        self.cost = self.cost.saturating_add(delta);
    }

    /// Adds `delta` nanoseconds to the time.
    pub fn record_time(&mut self, delta: u64)
        ensures
            final(self)@.time == saturated(old(self)@.time, delta as nat),
            final(self)@.cost == old(self)@.cost,
    {
        self.time = self.time.saturating_add(delta);
    }

    /// Forgets what was recorded.
    pub fn reset(&mut self)
        ensures
            final(self)@.cost == 0,
            final(self)@.time == 0,
    {
        self.cost = 0;
        self.time = 0;
    }
}

} // verus!
