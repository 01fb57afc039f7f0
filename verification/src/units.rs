//! Fixed-point units and saturating arithmetic on them.

use vstd::prelude::*;

verus! {

/// The value 1.0 of a quantity kept in thousandths.
pub const THOUSANDTH_UNIT: i32 = 1000;

/// The number of position steps in one world unit.
pub const POSITION_UNIT: i64 = 1_000_000_000;

/// One second, in microseconds.
pub const MICROS_PER_SECOND: u64 = 1_000_000;

/// `v` if it fits in an `i32`, else the nearest bound of `i32`.
pub open spec fn clamp_i32(v: int) -> i32 {
    if v < i32::MIN {
        i32::MIN
    } else if v > i32::MAX {
        i32::MAX
    } else {
        v as i32
    }
}

/// `v` if it fits in an `i64`, else the nearest bound of `i64`.
pub open spec fn clamp_i64(v: int) -> i64 {
    if v < i64::MIN {
        i64::MIN
    } else if v > i64::MAX {
        i64::MAX
    } else {
        v as i64
    }
}

/// `v` if it fits in a `u32`, else `u32::MAX`.
pub open spec fn clamp_u32(v: int) -> u32
    recommends
        v >= 0,
{
    if v > u32::MAX {
        u32::MAX
    } else {
        v as u32
    }
}

/// `v` if it fits in a `u64`, else `u64::MAX`.
pub open spec fn clamp_u64(v: int) -> u64
    recommends
        v >= 0,
{
    if v > u64::MAX {
        u64::MAX
    } else {
        v as u64
    }
}

/// Narrows `v` to `i32`, saturating at the bounds.
pub fn saturate_i32(v: i64) -> (r: i32)
    ensures
        r == clamp_i32(v as int),
{
    if v < i32::MIN as i64 {
        i32::MIN
    } else if v > i32::MAX as i64 {
        i32::MAX
    } else {
        v as i32
    }
}

/// Narrows `v` to `i64`, saturating at the bounds.
pub fn saturate_i64(v: i128) -> (r: i64)
    ensures
        r == clamp_i64(v as int),
{
    if v < i64::MIN as i128 {
        i64::MIN
    } else if v > i64::MAX as i128 {
        i64::MAX
    } else {
        v as i64
    }
}

/// The sum of `a` and `b`, saturating at the bounds of `i32`.
pub fn saturating_sum_i32(a: i32, b: i32) -> (r: i32)
    ensures
        r == clamp_i32(a + b),
{
    saturate_i32(a as i64 + b as i64)
}

} // verus!
