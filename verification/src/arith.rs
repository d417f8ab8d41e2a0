//! Saturating arithmetic over `u32`.
//!
//! Every weight and fraction computation in this crate clamps on overflow
//! instead of wrapping or failing; these helpers state that behaviour once
//! and are reused everywhere.

use vstd::prelude::*;

verus! {

/// Clamp a non-negative mathematical integer into the `u32` range.
pub open spec fn saturate(x: int) -> int {
    if x > u32::MAX as int {
        u32::MAX as int
    } else {
        x
    }
}

/// Addition that clamps to `u32::MAX` instead of overflowing.
pub fn sat_add(a: u32, b: u32) -> (r: u32)
    ensures
        r as int == saturate(a as int + b as int),
{
    a.saturating_add(b)
}

/// Multiplication that clamps to `u32::MAX` instead of overflowing.
pub fn sat_mul(a: u32, b: u32) -> (r: u32)
    ensures
        r as int == saturate(a as int * b as int),
{
    match a.checked_mul(b) {
        Some(v) => v,
        None => u32::MAX,
    }
}

} // verus!
