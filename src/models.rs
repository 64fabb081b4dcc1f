//! The values that flow through recognition: hands, samples, frames and events.
use vstd::prelude::*;

verus! {

/// Largest value of a normalized signal: signals are per-mille fractions of full scale.
pub const SIGNAL_MAX: u32 = 1000;

/// Which physical hand a sample belongs to.
#[derive(Copy, Clone, Debug, PartialEq, Eq, Hash, Structural)]
pub enum HandType {
    Left,
    Right,
}

/// The kinds of pulse gestures that can be recognized.
#[derive(Copy, Clone, Debug, PartialEq, Eq, Hash, Structural)]
pub enum GestureKind {
    Pinch,
    Flick,
}

/// Position and orientation carried along with a sample, in fixed-point units
/// chosen by the producer (translation in thousandths of a source unit,
/// rotation as a quaternion scaled by one million).
#[derive(Copy, Clone, Debug, PartialEq, Eq)]
pub struct Pose {
    pub translation: [i64; 3],
    pub rotation: [i64; 4],
}

/// One hand's measurement for one frame.
#[derive(Copy, Clone, Debug, PartialEq, Eq)]
pub struct HandData {
    /// Identifies the chirality of this hand.
    pub type_: HandType,
    /// The normalized signal that drives detection, in `0..=SIGNAL_MAX`.
    pub signal: u32,
    /// Where an event recognized on this sample is anchored.
    pub pose: Pose,
}

/// The samples of the two tracked hand slots for one frame.
pub type TwoHandsData = [Option<HandData>; 2];

/// A recognized gesture.
#[derive(Copy, Clone, Debug, PartialEq, Eq)]
pub struct GestureEvent {
    pub kind: GestureKind,
    pub hand_type: HandType,
    pub pose: Pose,
    /// Time of recognition, in milliseconds.
    pub time: u64,
}

impl HandData {
    /// A sample's signal is normalized.
    pub open spec fn well_formed(&self) -> bool {
        self.signal <= SIGNAL_MAX
    }

    /// Builds a sample, clamping the signal into the normalized range.
    pub fn new(type_: HandType, signal: u32, pose: Pose) -> (r: HandData)
        ensures
            r.type_ == type_,
            r.pose == pose,
            r.signal == if signal <= SIGNAL_MAX { signal } else { SIGNAL_MAX },
            r.well_formed(),
    {
        let signal = if signal <= SIGNAL_MAX { signal } else { SIGNAL_MAX };
        HandData { type_, signal, pose }
    }
}

} // verus!
