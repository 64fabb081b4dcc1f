//! Per-tick recognition: each hand slot's window is scanned for a completed
//! pulse, and each candidate is passed through the debounce gate.
use vstd::prelude::*;

use crate::debounce::{may_fire, DebounceGate};
use crate::detector::{
    is_calm, lemma_all_active_has_no_pulse, lemma_short_window_has_no_pulse, pulse_end,
    GesturePhaseDetector,
};
use crate::history::{slot_window, HandsData};
use crate::models::{GestureEvent, GestureKind, HandData, HandType, TwoHandsData, SIGNAL_MAX};

verus! {

/// Signal level that separates calm from active samples, unless configured otherwise.
pub const DEFAULT_THRESHOLD: u32 = 700;

/// Shortest time, in milliseconds, between two firings of one kind on one hand,
/// unless configured otherwise.
pub const DEFAULT_MIN_FIRE_INTERVAL: u64 = 500;

/// What scanning one window yields: the event, if one is emitted, and the
/// record of last firing times afterwards.
pub open spec fn slot_outcome(
    w: Seq<HandData>,
    detector: GesturePhaseDetector,
    fired: Map<(HandType, GestureKind), u64>,
    now: u64,
    min_interval: u64,
) -> (Option<GestureEvent>, Map<(HandType, GestureKind), u64>) {
    match pulse_end(w, detector.threshold) {
        None => (None, fired),
        Some(k) => {
            let s = w[k];
            let key = (s.type_, detector.kind);
            if may_fire(fired, key, now, min_interval) {
                (
                    Some(
                        GestureEvent { kind: detector.kind, hand_type: s.type_, pose: s.pose, time: now },
                    ),
                    fired.insert(key, now),
                )
            } else {
                (None, fired)
            }
        },
    }
}

/// A window of fewer than three usable samples emits nothing and leaves the
/// record of firing times as it was.
pub proof fn lemma_short_window_emits_nothing(
    w: Seq<HandData>,
    detector: GesturePhaseDetector,
    fired: Map<(HandType, GestureKind), u64>,
    now: u64,
    min_interval: u64,
)
    requires
        w.len() < 3,
    ensures
        slot_outcome(w, detector, fired, now, min_interval) == (
        None::<GestureEvent>,
        fired,
        ),
{
    lemma_short_window_has_no_pulse(w, detector.threshold);
}

/// A window whose samples are all active emits nothing and leaves the record of
/// firing times as it was.
pub proof fn lemma_all_active_window_emits_nothing(
    w: Seq<HandData>,
    detector: GesturePhaseDetector,
    fired: Map<(HandType, GestureKind), u64>,
    now: u64,
    min_interval: u64,
)
    requires
        forall|i: int| 0 <= i < w.len() ==> !#[trigger] is_calm(w[i], detector.threshold),
    ensures
        slot_outcome(w, detector, fired, now, min_interval) == (
        None::<GestureEvent>,
        fired,
        ),
{
    lemma_all_active_has_no_pulse(w, detector.threshold);
}

/// The events of an optional event, as a sequence.
pub open spec fn events_of(e: Option<GestureEvent>) -> Seq<GestureEvent> {
    match e {
        Some(e) => seq![e],
        None => Seq::empty(),
    }
}

/// What one recognition pass over `frames` yields: the events of slot 0 then of
/// slot 1, and the record of last firing times afterwards.
pub open spec fn recognized(
    frames: Seq<TwoHandsData>,
    detector: GesturePhaseDetector,
    fired: Map<(HandType, GestureKind), u64>,
    now: u64,
    min_interval: u64,
) -> (Seq<GestureEvent>, Map<(HandType, GestureKind), u64>) {
    let first = slot_outcome(slot_window(frames, 0), detector, fired, now, min_interval);
    let second = slot_outcome(slot_window(frames, 1), detector, first.1, now, min_interval);
    (events_of(first.0) + events_of(second.0), second.1)
}

/// Scans one window and, when it completes a pulse that the debounce lets through,
/// appends the event to `events`.
fn recognize_window(
    detector: GesturePhaseDetector,
    min_fire_interval: u64,
    window: &Vec<HandData>,
    gate: &mut DebounceGate,
    now: u64,
    events: &mut Vec<GestureEvent>,
)
    requires
        old(gate).well_formed(),
    ensures
        final(gate).well_formed(),
        final(gate)@ == slot_outcome(window@, detector, old(gate)@, now, min_fire_interval).1,
        final(events)@ == old(events)@ + events_of(
            slot_outcome(window@, detector, old(gate)@, now, min_fire_interval).0,
        ),
{
    match detector.scan(window) {
        None => {
            assert(events@ + Seq::<GestureEvent>::empty() =~= events@);
        },
        Some(k) => {
            let s = window[k];
            if gate.try_fire(s.type_, detector.kind, now, min_fire_interval) {
                events.push(
                    GestureEvent { kind: detector.kind, hand_type: s.type_, pose: s.pose, time: now },
                );
            } else {
                assert(events@ + Seq::<GestureEvent>::empty() =~= events@);
            }
        },
    }
}

/// One recognition pass: scans both hand slots of `history` with `detector`
/// and returns the events that `gate` lets through, recording their times.
pub fn recognize(
    detector: GesturePhaseDetector,
    min_fire_interval: u64,
    history: &HandsData,
    gate: &mut DebounceGate,
    now: u64,
) -> (events: Vec<GestureEvent>)
    requires
        old(gate).well_formed(),
    ensures
        final(gate).well_formed(),
        (events@, final(gate)@) == recognized(
            history.frames(),
            detector,
            old(gate)@,
            now,
            min_fire_interval,
        ),
{
    let (first, second) = history.get_iters();
    let mut events: Vec<GestureEvent> = Vec::new();
    recognize_window(detector, min_fire_interval, &first, gate, now, &mut events);
    recognize_window(detector, min_fire_interval, &second, gate, now, &mut events);
    assert(events@ =~= recognized(history.frames(), detector, old(gate)@, now, min_fire_interval).0);
    events
}

/// One recognition pass for pinches, with the default threshold and cooldown.
pub fn detect_pinch_event(hands_data: &HandsData, gate: &mut DebounceGate, now: u64) -> (events: Vec<
    GestureEvent,
>)
    requires
        old(gate).well_formed(),
    ensures
        final(gate).well_formed(),
        (events@, final(gate)@) == recognized(
            hands_data.frames(),
            (GesturePhaseDetector { kind: GestureKind::Pinch, threshold: DEFAULT_THRESHOLD }),
            old(gate)@,
            now,
            DEFAULT_MIN_FIRE_INTERVAL,
        ),
{
    let detector = GesturePhaseDetector { kind: GestureKind::Pinch, threshold: DEFAULT_THRESHOLD };
    recognize(detector, DEFAULT_MIN_FIRE_INTERVAL, hands_data, gate, now)
}

/// A configuration that cannot be used.
#[derive(Copy, Clone, Debug, PartialEq, Eq, Structural)]
pub enum ConfigError {
    /// The history must keep at least one frame.
    ZeroCapacity,
    /// The history cannot keep more than `MAX_HISTORY_CAPACITY` frames.
    CapacityTooLarge,
    /// The threshold must lie strictly between 0 and `SIGNAL_MAX`.
    ThresholdOutOfRange,
}

/// Recognizes one gesture kind, tick after tick, remembering when it last fired
/// on each hand.
pub struct GestureRecognizer {
    detector: GesturePhaseDetector,
    min_fire_interval: u64,
    gate: DebounceGate,
}

impl GestureRecognizer {
    /// The detector this recognizer runs.
    pub closed spec fn detector(&self) -> GesturePhaseDetector {
        self.detector
    }

    /// The configured cooldown, in milliseconds.
    pub closed spec fn min_fire_interval(&self) -> u64 {
        self.min_fire_interval
    }

    /// The last firing time of each (hand, kind) pair that has fired.
    pub closed spec fn fired(&self) -> Map<(HandType, GestureKind), u64> {
        self.gate@
    }

    /// The detector's threshold is valid and the debounce record is well formed.
    pub closed spec fn well_formed(&self) -> bool {
        self.detector.well_formed() && self.gate.well_formed()
    }

    /// A recognizer of `kind` pulses across `threshold`, with the given cooldown;
    /// rejects a threshold outside `1..SIGNAL_MAX`.
    pub fn new(kind: GestureKind, threshold: u32, min_fire_interval: u64) -> (r: Result<
        GestureRecognizer,
        ConfigError,
    >)
        ensures
            r is Err <==> !(0 < threshold < SIGNAL_MAX),
            r is Err ==> r == Err::<GestureRecognizer, ConfigError>(
                ConfigError::ThresholdOutOfRange,
            ),
            r is Ok ==> {
                let g = r->Ok_0;
                &&& g.well_formed()
                &&& g.detector() == (GesturePhaseDetector { kind, threshold })
                &&& g.min_fire_interval() == min_fire_interval
                &&& g.fired() == Map::<(HandType, GestureKind), u64>::empty()
            },
    {
        if threshold == 0 || threshold >= SIGNAL_MAX {
            return Err(ConfigError::ThresholdOutOfRange);
        }
        Ok(GestureRecognizer::with_valid_threshold(kind, threshold, min_fire_interval))
    }

    pub(crate) fn with_valid_threshold(kind: GestureKind, threshold: u32, min_fire_interval: u64) -> (r:
        GestureRecognizer)
        requires
            0 < threshold < SIGNAL_MAX,
        ensures
            r.well_formed(),
            r.detector() == (GesturePhaseDetector { kind, threshold }),
            r.min_fire_interval() == min_fire_interval,
            r.fired() == Map::<(HandType, GestureKind), u64>::empty(),
    {
        GestureRecognizer {
            detector: GesturePhaseDetector { kind, threshold },
            min_fire_interval,
            gate: DebounceGate::new(),
        }
    }

    /// The threshold the detector compares signals with.
    pub fn threshold(&self) -> (r: u32)
        ensures
            r == self.detector().threshold,
    {
        self.detector.threshold
    }

    /// The gesture kind this recognizer reports.
    pub fn kind(&self) -> (r: GestureKind)
        ensures
            r == self.detector().kind,
    {
        self.detector.kind
    }

    /// The time at which this recognizer last fired on `hand`, if it ever did.
    pub fn last_fire_time(&self, hand: HandType) -> (r: Option<u64>)
        requires
            self.well_formed(),
        ensures
            r == if self.fired().contains_key((hand, self.detector().kind)) {
                Some(self.fired()[(hand, self.detector().kind)])
            } else {
                None
            },
    {
        self.gate.last_fire_time(hand, self.detector.kind)
    }

    /// Runs one recognition pass over `history` at time `now`.
    pub fn recognize(&mut self, history: &HandsData, now: u64) -> (events: Vec<GestureEvent>)
        requires
            old(self).well_formed(),
        ensures
            final(self).well_formed(),
            final(self).detector() == old(self).detector(),
            final(self).min_fire_interval() == old(self).min_fire_interval(),
            (events@, final(self).fired()) == recognized(
                history.frames(),
                old(self).detector(),
                old(self).fired(),
                now,
                old(self).min_fire_interval(),
            ),
    {
        recognize(self.detector, self.min_fire_interval, history, &mut self.gate, now)
    }
}

} // verus!
