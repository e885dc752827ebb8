//! Fixed-point units and saturating arithmetic.
//!
//! Time is counted in ticks of one microsecond. A velocity of one step covers
//! one position step per tick, so `position += velocity * ticks` is exact in
//! integers. Every stored quantity is an `i64`; sums and products are formed
//! in `i128`, where they cannot overflow, and brought back by [`saturate`].

use vstd::prelude::*;

verus! {

/// Ticks in one second.
pub const TICKS_PER_SECOND: u32 = 1_000_000;

/// The value in `i64` nearest to `x`.
pub open spec fn saturate_spec(x: int) -> int {
    if x < i64::MIN as int {
        i64::MIN as int
    } else if x > i64::MAX as int {
        i64::MAX as int
    } else {
        x
    }
}

/// `x` limited to the closed range from `lo` to `hi`.
pub open spec fn clamp_spec(x: int, lo: int, hi: int) -> int {
    if x < lo {
        lo
    } else if x > hi {
        hi
    } else {
        x
    }
}

/// Brings a wide intermediate result back into `i64`, stopping at the ends
/// of the range instead of wrapping.
pub fn saturate(x: i128) -> (r: i64)
    ensures
        r as int == saturate_spec(x as int),
{
    if x < i64::MIN as i128 {
        i64::MIN
    } else if x > i64::MAX as i128 {
        i64::MAX
    } else {
        x as i64
    }
}

/// Limits a wide intermediate result to the range from `lo` to `hi`.
pub fn clamp(x: i128, lo: i64, hi: i64) -> (r: i64)
    requires
        lo <= hi,
    ensures
        r as int == clamp_spec(x as int, lo as int, hi as int),
{
    if x < lo as i128 {
        lo
    } else if x > hi as i128 {
        hi
    } else {
        x as i64
    }
}

} // verus!
