//! Fixed-point units of time and of meters.
//!
//! Time is a whole number of nanoseconds. One simulated week lasts
//! [`WEEK_NANOS`] and the character's age advances every [`AGE_NANOS`]
//! (fifty weeks).
//!
//! A meter or an experience accumulator holds a whole number of *grains*.
//! [`ONE`] grains make one full point. Rates are written in ten-thousandths
//! of a point per week; a rate `r` applied for `dt` nanoseconds moves a value
//! by exactly `r * dt` grains, which is why `ONE` equals
//! `10_000 * WEEK_NANOS`.

use vstd::prelude::*;

verus! {

/// Length of one simulated week, in nanoseconds.
pub const WEEK_NANOS: u64 = 60_000_000;

/// Time between two birthdays, in nanoseconds: fifty weeks.
pub const AGE_NANOS: u64 = 3_000_000_000;

/// Grains in one full point of a meter.
pub const ONE: i64 = 600_000_000_000;

/// Grains in one hundredth of a point.
pub const HUNDREDTH: i64 = 6_000_000_000;

/// Upper bound of a bounded meter after a simulation step: 1.1 points.
pub const METER_MAX: i64 = 660_000_000_000;

/// Threshold above which belonging feeds a small child's pride: 0.99 points.
pub const BELONGING_HIGH: i64 = 594_000_000_000;

/// Divisor that turns `experience * dt` into the pride gained from that
/// experience: a hundredth of the experience per week.
pub const FEEDBACK_DIVISOR: i128 = 6_000_000_000;

/// The value `v` brought into the range of `i64`.
pub open spec fn saturate(v: int) -> int {
    if v < i64::MIN {
        i64::MIN as int
    } else if v > i64::MAX {
        i64::MAX as int
    } else {
        v
    }
}

/// The value `val` brought into `[min, max]`, decided by the two strict
/// comparisons `val > min` and `val < max`, in that order.
pub open spec fn clamp_spec(val: int, min: int, max: int) -> int {
    if val > min {
        if val < max {
            val
        } else {
            max
        }
    } else {
        min
    }
}

/// A meter value brought into `[0, METER_MAX]`.
pub open spec fn meter_clamp(v: int) -> int {
    clamp_spec(v, 0, METER_MAX as int)
}

/// Brings a wide intermediate result back into `i64`.
pub fn saturating(v: i128) -> (r: i64)
    ensures
        r == saturate(v as int),
{
    if v < i64::MIN as i128 {
        i64::MIN
    } else if v > i64::MAX as i128 {
        i64::MAX
    } else {
        v as i64
    }
}

/// Sum of two grain counts, saturating at the bounds of `i64`.
pub fn saturating_sum(a: i64, b: i64) -> (r: i64)
    ensures
        r == saturate(a + b),
{
    saturating(a as i128 + b as i128)
}

/// Calls `nalgebra::clamp` on three `i64` values.
///
/// Trusted: the result is what nalgebra's source computes, `min` unless
/// `val > min`, then `max` unless `val < max`, else `val`.
#[verifier::external_body]
pub(crate) fn clamp_between(val: i64, min: i64, max: i64) -> (r: i64)
    ensures
        r == clamp_spec(val as int, min as int, max as int),
{
    nalgebra::clamp(val, min, max)
}

/// Clamps a meter into `[0, METER_MAX]`.
pub fn clamp_meter(v: i64) -> (r: i64)
    ensures
        r == meter_clamp(v as int),
        0 <= r <= METER_MAX,
{
    clamp_between(v, 0, METER_MAX)
}

/// Clamps a wide intermediate meter value into `[0, METER_MAX]`.
pub fn clamp_wide(v: i128) -> (r: i64)
    ensures
        r == meter_clamp(v as int),
        0 <= r <= METER_MAX,
{
    clamp_between(saturating(v), 0, METER_MAX)
}

/// Clamping is idempotent: a second clamp into the same interval changes
/// nothing, whether the value started inside the interval or outside it.
pub proof fn lemma_clamp_idempotent(val: int, min: int, max: int)
    requires
        min <= max,
    ensures
        clamp_spec(clamp_spec(val, min, max), min, max) == clamp_spec(val, min, max),
        min <= clamp_spec(val, min, max) <= max,
{
}

/// Clamping a meter twice gives what clamping it once gives.
pub proof fn lemma_meter_clamp_idempotent(v: int)
    ensures
        meter_clamp(meter_clamp(v)) == meter_clamp(v),
        0 <= meter_clamp(v) <= METER_MAX,
{
}

} // verus!
