//! Fixed-point scalars.
//!
//! Every coordinate, length and speed is an `i64` that counts millionths of
//! a world unit. Sums that leave the range of `i64` stop at its ends, and
//! quotients are rounded as the function that takes them says.

use vstd::prelude::*;

verus! {

/// Steps of a scalar that make up one world unit.
pub const UNIT: i64 = 1_000_000;

/// `v`, moved to the nearest end of the range of `i64` where it lies outside.
pub open spec fn saturated(v: int) -> int {
    if v < i64::MIN {
        i64::MIN as int
    } else if v > i64::MAX {
        i64::MAX as int
    } else {
        v
    }
}

/// The quotient of `n` by a positive `d`, rounded toward zero.
pub open spec fn toward_zero(n: int, d: int) -> int {
    if n >= 0 {
        n / d
    } else {
        -((-n) / d)
    }
}

/// Adds two scalars; the sum stops at the ends of the range.
pub fn saturating_sum(a: i64, b: i64) -> (r: i64)
    ensures
        r == saturated(a + b),
{
    let wide: i128 = a as i128 + b as i128;
    if wide < i64::MIN as i128 {
        i64::MIN
    } else if wide > i64::MAX as i128 {
        i64::MAX
    } else {
        wide as i64
    }
}

/// Half of `v`, rounded down.
pub fn half(v: i64) -> (r: i64)
    ensures
        r == v / 2,
{
    let t: i64 = v / 2;
    if v % 2 < 0 {
        t - 1
    } else {
        t
    }
}

} // verus!
