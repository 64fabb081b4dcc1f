//! The gesture subsystem as a host drives it: one frame in, the events of that
//! tick out.
use vstd::prelude::*;

use crate::detector::GesturePhaseDetector;
use crate::history::{pushed, HandsData, DEFAULT_HISTORY_CAPACITY, MAX_HISTORY_CAPACITY};
use crate::models::{GestureEvent, GestureKind, HandType, TwoHandsData, SIGNAL_MAX};
use crate::recognizer::{
    recognized, ConfigError, GestureRecognizer, DEFAULT_MIN_FIRE_INTERVAL, DEFAULT_THRESHOLD,
};

verus! {

/// The error a configuration is rejected with, checked in this order: the
/// history capacity, then the threshold; `None` for a valid configuration.
pub open spec fn config_error(history_capacity: usize, threshold: u32) -> Option<ConfigError> {
    if history_capacity == 0 {
        Some(ConfigError::ZeroCapacity)
    } else if history_capacity > MAX_HISTORY_CAPACITY {
        Some(ConfigError::CapacityTooLarge)
    } else if !(0 < threshold < SIGNAL_MAX) {
        Some(ConfigError::ThresholdOutOfRange)
    } else {
        None
    }
}

/// A history of frames and the recognizer that scans it after each frame.
pub struct GesturePlugin {
    history: HandsData,
    recognizer: GestureRecognizer,
}

impl GesturePlugin {
    /// The frames seen so far.
    pub closed spec fn hands_data(&self) -> HandsData {
        self.history
    }

    /// The recognizer and its record of firing times.
    pub closed spec fn gesture_recognizer(&self) -> GestureRecognizer {
        self.recognizer
    }

    /// History and recognizer are both well formed.
    pub closed spec fn well_formed(&self) -> bool {
        self.history.well_formed() && self.recognizer.well_formed()
    }

    /// A subsystem keeping `history_capacity` frames and recognizing `kind`
    /// pulses across `threshold`, at most once per `min_fire_interval`
    /// milliseconds on each hand.
    pub fn new(history_capacity: usize, kind: GestureKind, threshold: u32, min_fire_interval: u64) -> (r:
        Result<GesturePlugin, ConfigError>)
        ensures
            match r {
                Err(e) => config_error(history_capacity, threshold) == Some(e),
                Ok(p) => {
                    &&& config_error(history_capacity, threshold) is None
                    &&& p.well_formed()
                    &&& p.hands_data().frames() == Seq::<TwoHandsData>::empty()
                    &&& p.hands_data().capacity() == history_capacity
                    &&& p.gesture_recognizer().detector() == (GesturePhaseDetector { kind, threshold })
                    &&& p.gesture_recognizer().min_fire_interval() == min_fire_interval
                    &&& p.gesture_recognizer().fired() == Map::<
                        (HandType, GestureKind),
                        u64,
                    >::empty()
                },
            },
    {
        if history_capacity == 0 {
            return Err(ConfigError::ZeroCapacity);
        }
        if history_capacity > MAX_HISTORY_CAPACITY {
            return Err(ConfigError::CapacityTooLarge);
        }
        if threshold == 0 || threshold >= SIGNAL_MAX {
            return Err(ConfigError::ThresholdOutOfRange);
        }
        Ok(
            GesturePlugin {
                history: HandsData::new(history_capacity),
                recognizer: GestureRecognizer::with_valid_threshold(kind, threshold, min_fire_interval),
            },
        )
    }

    /// Records the newest frame, then runs one recognition pass at time `now`
    /// and returns its events.
    pub fn update(&mut self, frame: TwoHandsData, now: u64) -> (events: Vec<GestureEvent>)
        requires
            old(self).well_formed(),
        ensures
            final(self).well_formed(),
            final(self).hands_data().capacity() == old(self).hands_data().capacity(),
            final(self).hands_data().frames() == pushed(
                old(self).hands_data().frames(),
                old(self).hands_data().capacity(),
                frame,
            ),
            final(self).gesture_recognizer().detector() == old(self).gesture_recognizer().detector(),
            final(self).gesture_recognizer().min_fire_interval() == old(
                self,
            ).gesture_recognizer().min_fire_interval(),
            (events@, final(self).gesture_recognizer().fired()) == recognized(
                final(self).hands_data().frames(),
                old(self).gesture_recognizer().detector(),
                old(self).gesture_recognizer().fired(),
                now,
                old(self).gesture_recognizer().min_fire_interval(),
            ),
    {
        self.history.push_overwrite(frame);
        self.recognizer.recognize(&self.history, now)
    }

    /// The frames seen so far.
    pub fn history(&self) -> (r: &HandsData)
        ensures
            *r == self.hands_data(),
    {
        &self.history
    }

    /// The recognizer and its record of firing times.
    pub fn recognizer(&self) -> (r: &GestureRecognizer)
        ensures
            *r == self.gesture_recognizer(),
    {
        &self.recognizer
    }
}

impl Default for GesturePlugin {
    /// A subsystem recognizing pinches with the default capacity, threshold and cooldown.
    fn default() -> (r: GesturePlugin)
        ensures
            r.well_formed(),
            r.hands_data().frames() == Seq::<TwoHandsData>::empty(),
            r.hands_data().capacity() == DEFAULT_HISTORY_CAPACITY,
            r.gesture_recognizer().detector() == (GesturePhaseDetector {
                kind: GestureKind::Pinch,
                threshold: DEFAULT_THRESHOLD,
            }),
            r.gesture_recognizer().min_fire_interval() == DEFAULT_MIN_FIRE_INTERVAL,
            r.gesture_recognizer().fired() == Map::<(HandType, GestureKind), u64>::empty(),
    {
        GesturePlugin {
            history: HandsData::new(DEFAULT_HISTORY_CAPACITY),
            recognizer: GestureRecognizer::with_valid_threshold(
                GestureKind::Pinch,
                DEFAULT_THRESHOLD,
                DEFAULT_MIN_FIRE_INTERVAL,
            ),
        }
    }
}

} // verus!
