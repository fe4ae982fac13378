//! Small integer geometry helpers shared by the layout and selection logic.

use vstd::prelude::*;

verus! {

/// `v` clamped to `[lo, hi]`; `lo` wins when the interval is empty.
pub open spec fn clamp_int(v: int, lo: int, hi: int) -> int {
    if v < lo {
        lo
    } else if v > hi {
        hi
    } else {
        v
    }
}

/// Clamps `v` into `[lo, hi]`, preferring `lo` when the interval is empty.
pub fn clamp_i64(v: i64, lo: i64, hi: i64) -> (r: i64)
    ensures
        r == clamp_int(v as int, lo as int, hi as int),
{
    if v < lo {
        lo
    } else if v > hi {
        hi
    } else {
        v
    }
}

/// The smaller of two values.
pub fn min_i64(a: i64, b: i64) -> (r: i64)
    ensures
        r == if a < b {
            a as int
        } else {
            b as int
        },
{
    if a < b {
        a
    } else {
        b
    }
}

/// The larger of two values.
pub fn max_i64(a: i64, b: i64) -> (r: i64)
    ensures
        r == if a > b {
            a as int
        } else {
            b as int
        },
{
    if a > b {
        a
    } else {
        b
    }
}

} // verus!
