//! The progression clock.
//!
//! The clock accumulates simulated time and derives the character's age from
//! it. Time only moves forward, so the age never decreases.

use vstd::prelude::*;
use crate::units::AGE_NANOS;

verus! {

/// Simulated time since the game started.
#[derive(Clone, Copy, Debug, PartialEq, Eq, Structural)]
pub struct Clock {
    /// Accumulated simulated time, in nanoseconds.
    pub nanos: u64,
}

/// The age reached after `nanos` nanoseconds: one year per `AGE_NANOS`,
/// rounded down, and never more than `u32::MAX`.
pub open spec fn age_at(nanos: int) -> int {
    if nanos / (AGE_NANOS as int) > u32::MAX {
        u32::MAX as int
    } else {
        nanos / (AGE_NANOS as int)
    }
}

/// The time shown by a clock at `nanos` once `dt` more nanoseconds have
/// passed. The clock stops at `u64::MAX`.
pub open spec fn advanced(nanos: int, dt: int) -> int {
    if nanos + dt > u64::MAX {
        u64::MAX as int
    } else {
        nanos + dt
    }
}

impl Clock {
    /// A clock at time zero.
    pub fn new() -> (c: Clock)
        ensures
            c.nanos == 0,
    {
        Clock { nanos: 0 }
    }

    /// Lets `dt` nanoseconds pass.
    pub fn advance(&mut self, dt: u32)
        ensures
            final(self).nanos == advanced(old(self).nanos as int, dt as int),
            final(self).nanos >= old(self).nanos,
    {
        self.nanos = self.nanos.saturating_add(dt as u64);
    }

    /// Sets the clock back to time zero.
    pub fn reset(&mut self)
        ensures
            final(self).nanos == 0,
    {
        self.nanos = 0;
    }

    /// The character's age at the time the clock shows.
    pub fn current_age(&self) -> (age: u32)
        ensures
            age == age_at(self.nanos as int),
    {
        let years: u64 = self.nanos / AGE_NANOS;
        if years > u32::MAX as u64 {
            u32::MAX
        } else {
            years as u32
        }
    }
}

/// The age is a non-decreasing function of time.
pub proof fn lemma_age_monotonic(earlier: int, later: int)
    requires
        0 <= earlier <= later,
    ensures
        0 <= age_at(earlier) <= age_at(later),
{
    assert(earlier / (AGE_NANOS as int) <= later / (AGE_NANOS as int));
}

/// Letting time pass never lowers the age.
pub proof fn lemma_age_after_advance(nanos: int, dt: int)
    requires
        0 <= nanos <= u64::MAX,
        0 <= dt,
    ensures
        age_at(nanos) <= age_at(advanced(nanos, dt)),
{
    lemma_age_monotonic(nanos, advanced(nanos, dt));
}

} // verus!
