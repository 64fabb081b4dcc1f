//! Recognition of transient hand gestures from a stream of per-frame hand samples.
//!
//! A bounded history of frames is scanned, per tracked hand slot, for a completed
//! calm, active, calm pulse of a normalized signal; candidates pass a per-hand
//! debounce gate before they are emitted as events.
use vstd::prelude::*;

pub mod debounce;
pub mod detector;
pub mod history;
pub mod models;
pub mod pinch;
pub mod plugin;
pub mod recognizer;
pub mod utils;

verus! {

/// Sum of two counts.
pub fn add(left: usize, right: usize) -> (r: usize)
    requires
        left + right <= usize::MAX,
    ensures
        r == left + right,
{
    left + right
}

} // verus!
