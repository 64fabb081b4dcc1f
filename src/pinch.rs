//! Turning a measured distance between index finger and thumb into a normalized
//! pinch signal.
use vstd::prelude::*;

use crate::models::SIGNAL_MAX;

verus! {

/// Default lower normalization bound of the pinch distance, in thousandths of a source unit.
pub const MIN_PINCH_DISTANCE: u64 = 15000;

/// Default upper normalization bound of the pinch distance, in thousandths of a source unit.
pub const MAX_PINCH_DISTANCE: u64 = 70000;

/// `(min_distance - distance) / max_distance` as a per-mille fraction, rounded
/// down and clamped into `0..=SIGNAL_MAX`.
pub open spec fn normalized_distance(distance: u64, min_distance: u64, max_distance: u64) -> int {
    let raw = (min_distance - distance) * SIGNAL_MAX / (max_distance as int);
    if distance >= min_distance {
        0
    } else if raw > SIGNAL_MAX {
        SIGNAL_MAX as int
    } else {
        raw
    }
}

/// Normalizes `distance` against the bounds `min_distance` and `max_distance`.
pub fn normalize_distance(distance: u64, min_distance: u64, max_distance: u64) -> (r: u32)
    requires
        max_distance > 0,
    ensures
        r as int == normalized_distance(distance, min_distance, max_distance),
        r <= SIGNAL_MAX,
{
    if distance >= min_distance {
        return 0;
    }
    let gap = (min_distance - distance) as u128;
    proof {
        assert(gap * 1000 <= u64::MAX as int * 1000) by (nonlinear_arith)
            requires
                gap <= u64::MAX,
        ;
    }
    let raw = gap * (SIGNAL_MAX as u128) / (max_distance as u128);
    if raw > SIGNAL_MAX as u128 {
        SIGNAL_MAX
    } else {
        raw as u32
    }
}

/// Normalizes a pinch distance, in thousandths of a source unit, against the
/// default bounds.
pub fn normalize_pinch_distance(distance: u64) -> (r: u32)
    ensures
        r as int == normalized_distance(distance, MIN_PINCH_DISTANCE, MAX_PINCH_DISTANCE),
        r <= SIGNAL_MAX,
{
    normalize_distance(distance, MIN_PINCH_DISTANCE, MAX_PINCH_DISTANCE)
}

} // verus!
