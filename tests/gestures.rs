use hand_gestures::debounce::DebounceGate;
use hand_gestures::detector::GesturePhaseDetector;
use hand_gestures::history::HandsData;
use hand_gestures::models::{GestureKind, HandData, HandType, Pose, TwoHandsData};
use hand_gestures::pinch::{normalize_distance, normalize_pinch_distance};
use hand_gestures::plugin::GesturePlugin;
use hand_gestures::recognizer::{detect_pinch_event, recognize, ConfigError, GestureRecognizer};
use hand_gestures::utils::find_two_largest;

fn pose(x: i64) -> Pose {
    Pose { translation: [x, 2 * x, 3 * x], rotation: [0, 0, 0, 1_000_000] }
}

fn sample(hand: HandType, signal: u32, x: i64) -> HandData {
    HandData::new(hand, signal, pose(x))
}

fn left_frame(signal: u32, x: i64) -> TwoHandsData {
    [Some(sample(HandType::Left, signal, x)), None]
}

fn history_of(capacity: usize, frames: &[TwoHandsData]) -> HandsData {
    let mut h = HandsData::new(capacity);
    for f in frames {
        h.push_overwrite(*f);
    }
    h
}

fn signals(samples: &[HandData]) -> Vec<u32> {
    samples.iter().map(|s| s.signal).collect()
}

#[test]
fn it_works() {
    let result = hand_gestures::add(2, 2);
    assert_eq!(result, 4);
}

#[test]
fn literal_pulse_yields_one_candidate() {
    let values = [100, 200, 300, 800, 900, 700, 300, 200, 100];
    let frames: Vec<TwoHandsData> =
        values.iter().enumerate().map(|(i, v)| left_frame(*v, i as i64)).collect();
    let h = history_of(30, &frames);
    let window = h.get_hand_iter(0);
    assert_eq!(signals(&window), vec![100, 200, 300, 700, 900, 800, 300, 200, 100]);
    let detector = GesturePhaseDetector { kind: GestureKind::Pinch, threshold: 700 };
    // newest first: three calm, three active, then the calm sample at position 6
    assert_eq!(detector.scan(&window), Some(6));

    let mut gate = DebounceGate::new();
    let events = recognize(detector, 500, &h, &mut gate, 1000);
    assert_eq!(events.len(), 1);
    assert_eq!(events[0].kind, GestureKind::Pinch);
    assert_eq!(events[0].hand_type, HandType::Left);
    assert_eq!(events[0].time, 1000);
    // anchored at the trailing calm sample, pushed third (index 2), not at the peak
    assert_eq!(events[0].pose, pose(2));
}

#[test]
fn all_active_window_yields_nothing() {
    let frames: Vec<TwoHandsData> = (0..10).map(|i| left_frame(900, i)).collect();
    let h = history_of(30, &frames);
    let detector = GesturePhaseDetector { kind: GestureKind::Pinch, threshold: 700 };
    assert_eq!(detector.scan(&h.get_hand_iter(0)), None);
    let mut gate = DebounceGate::new();
    assert!(recognize(detector, 500, &h, &mut gate, 0).is_empty());
    assert_eq!(gate.last_fire_time(HandType::Left, GestureKind::Pinch), None);
}

#[test]
fn calm_then_active_without_return_yields_nothing() {
    // oldest to newest: active, then calm: newest first the pulse never closes
    let frames: Vec<TwoHandsData> = [900, 900, 100].iter().map(|v| left_frame(*v, 0)).collect();
    let detector = GesturePhaseDetector { kind: GestureKind::Pinch, threshold: 700 };
    let h = history_of(30, &frames);
    assert_eq!(detector.scan(&h.get_hand_iter(0)), None);
    // one more calm sample closes it
    let frames: Vec<TwoHandsData> =
        [100, 100, 900, 900, 100].iter().map(|v| left_frame(*v, 0)).collect();
    let h = history_of(30, &frames);
    assert_eq!(detector.scan(&h.get_hand_iter(0)), Some(3));
}

#[test]
fn short_windows_yield_nothing() {
    let detector = GesturePhaseDetector { kind: GestureKind::Pinch, threshold: 700 };
    for values in [vec![], vec![100], vec![900, 100], vec![100, 900]] {
        let frames: Vec<TwoHandsData> = values.iter().map(|v| left_frame(*v, 0)).collect();
        let h = history_of(30, &frames);
        let mut gate = DebounceGate::new();
        assert!(recognize(detector, 500, &h, &mut gate, 0).is_empty());
    }
    // a gap cuts the window: only the two newest samples are usable
    let frames = [left_frame(100, 0), left_frame(900, 0), [None, None], left_frame(900, 0), left_frame(100, 0)];
    let h = history_of(30, &frames);
    assert_eq!(h.get_hand_iter(0).len(), 2);
    let mut gate = DebounceGate::new();
    assert!(recognize(detector, 500, &h, &mut gate, 0).is_empty());
}

#[test]
fn debounce_suppresses_within_interval() {
    let mut gate = DebounceGate::new();
    let t = 2000;
    assert!(gate.try_fire(HandType::Right, GestureKind::Pinch, t, 500));
    assert!(!gate.try_fire(HandType::Right, GestureKind::Pinch, t + 100, 500));
    assert_eq!(gate.last_fire_time(HandType::Right, GestureKind::Pinch), Some(t));
    assert!(gate.try_fire(HandType::Right, GestureKind::Pinch, t + 600, 500));
    assert_eq!(gate.last_fire_time(HandType::Right, GestureKind::Pinch), Some(t + 600));
}

#[test]
fn debounce_keys_are_independent() {
    let mut gate = DebounceGate::new();
    assert!(gate.try_fire(HandType::Left, GestureKind::Pinch, 100, 500));
    assert!(gate.try_fire(HandType::Right, GestureKind::Pinch, 100, 500));
    assert!(gate.try_fire(HandType::Left, GestureKind::Flick, 100, 500));
    assert!(!gate.try_fire(HandType::Left, GestureKind::Pinch, 599, 500));
    assert!(gate.try_fire(HandType::Left, GestureKind::Pinch, 600, 500));
    assert_eq!(gate.last_fire_time(HandType::Right, GestureKind::Flick), None);
    // a time before the last firing never passes
    assert!(!gate.try_fire(HandType::Right, GestureKind::Pinch, 50, 0));
}

#[test]
fn ring_keeps_newest_capacity_frames() {
    let capacity = 5;
    let mut h = HandsData::new(capacity);
    for i in 0..(capacity + 5) {
        let evicted = h.push_overwrite(left_frame(i as u32, i as i64));
        if i < capacity {
            assert!(evicted.is_none());
        } else {
            let old = evicted.unwrap()[0].unwrap();
            assert_eq!(old.signal, (i - capacity) as u32);
        }
    }
    let window = h.get_hand_iter(0);
    assert_eq!(signals(&window), vec![9, 8, 7, 6, 5]);
    assert!(h.get_hand_iter(1).is_empty());
}

#[test]
fn window_is_repeatable() {
    let frames: Vec<TwoHandsData> = [100, 800, 200, 300]
        .iter()
        .map(|v| [Some(sample(HandType::Left, *v, 1)), Some(sample(HandType::Right, *v + 1, 2))])
        .collect();
    let h = history_of(3, &frames);
    assert_eq!(h.get_hand_iter(0), h.get_hand_iter(0));
    let (first, second) = h.get_iters();
    assert_eq!(first, h.get_hand_iter(0));
    assert_eq!(signals(&first), vec![300, 200, 800]);
    assert_eq!(signals(&second), vec![301, 201, 801]);
}

#[test]
fn end_to_end_pinch() {
    let mut plugin = GesturePlugin::new(5, GestureKind::Pinch, 700, 500).unwrap();
    let mut emitted = Vec::new();
    for (i, v) in [100, 200, 900, 200].iter().enumerate() {
        let now = 100 * i as u64;
        emitted.push(plugin.update(left_frame(*v, i as i64), now));
    }
    assert!(emitted[0].is_empty());
    assert!(emitted[1].is_empty());
    assert!(emitted[2].is_empty());
    assert_eq!(emitted[3].len(), 1);
    assert_eq!(emitted[3][0].hand_type, HandType::Left);
    assert_eq!(emitted[3][0].time, 300);
    assert_eq!(emitted[3][0].pose, pose(1));
    assert_eq!(plugin.recognizer().last_fire_time(HandType::Left), Some(300));
    // the same pulse seen again within the cooldown is not emitted twice
    assert!(plugin.update(left_frame(100, 4), 400).is_empty());
    assert_eq!(plugin.history().get_hand_iter(0).len(), 5);
}

#[test]
fn both_slots_can_fire_in_one_tick() {
    let values = [100, 900, 100];
    let frames: Vec<TwoHandsData> = values
        .iter()
        .map(|v| [Some(sample(HandType::Right, *v, 7)), Some(sample(HandType::Left, *v, 8))])
        .collect();
    let h = history_of(30, &frames);
    let mut gate = DebounceGate::new();
    let events = detect_pinch_event(&h, &mut gate, 5000);
    assert_eq!(events.len(), 2);
    assert_eq!(events[0].hand_type, HandType::Right);
    assert_eq!(events[1].hand_type, HandType::Left);
    // same chirality in both slots: the second is debounced
    let frames: Vec<TwoHandsData> = values
        .iter()
        .map(|v| [Some(sample(HandType::Right, *v, 7)), Some(sample(HandType::Right, *v, 8))])
        .collect();
    let h = history_of(30, &frames);
    let mut gate = DebounceGate::new();
    assert_eq!(detect_pinch_event(&h, &mut gate, 5000).len(), 1);
}

#[test]
fn configuration_errors() {
    assert_eq!(GesturePlugin::new(0, GestureKind::Pinch, 700, 500).err(), Some(ConfigError::ZeroCapacity));
    assert_eq!(
        GesturePlugin::new(usize::MAX, GestureKind::Pinch, 700, 500).err(),
        Some(ConfigError::CapacityTooLarge)
    );
    assert_eq!(
        GesturePlugin::new(30, GestureKind::Pinch, 0, 500).err(),
        Some(ConfigError::ThresholdOutOfRange)
    );
    assert_eq!(
        GesturePlugin::new(30, GestureKind::Flick, 1000, 500).err(),
        Some(ConfigError::ThresholdOutOfRange)
    );
    assert_eq!(
        GesturePlugin::new(0, GestureKind::Pinch, 0, 500).err(),
        Some(ConfigError::ZeroCapacity)
    );
    assert!(GestureRecognizer::new(GestureKind::Flick, 1, 0).is_ok());
    assert_eq!(
        GestureRecognizer::new(GestureKind::Flick, 1000, 0).err(),
        Some(ConfigError::ThresholdOutOfRange)
    );
}

#[test]
fn default_plugin_recognizes_pinches() {
    let plugin = GesturePlugin::default();
    assert_eq!(plugin.recognizer().threshold(), 700);
    assert_eq!(plugin.recognizer().kind(), GestureKind::Pinch);
    assert!(plugin.history().get_hand_iter(0).is_empty());
}

#[test]
fn samples_are_clamped() {
    assert_eq!(sample(HandType::Left, 5000, 0).signal, 1000);
    assert_eq!(sample(HandType::Left, 999, 0).signal, 999);
}

#[test]
fn pinch_distance_normalization() {
    assert_eq!(normalize_pinch_distance(0), 214);
    assert_eq!(normalize_pinch_distance(8000), 100);
    assert_eq!(normalize_pinch_distance(15000), 0);
    assert_eq!(normalize_pinch_distance(40000), 0);
    assert_eq!(normalize_distance(5000, 15000, 70000), 142);
    assert_eq!(normalize_distance(0, 70000, 70000), 1000);
    assert_eq!(normalize_distance(0, 100000, 70000), 1000);
    assert_eq!(normalize_distance(0, u64::MAX, 1), 1000);
}

#[test]
fn two_largest_keys() {
    assert_eq!(find_two_largest(&vec![3, 5, 7]), (2, 1));
    assert_eq!(find_two_largest(&vec![5, 3, 5]), (0, 2));
    assert_eq!(find_two_largest(&vec![3, 5, 5]), (1, 2));
    assert_eq!(find_two_largest(&vec![6, 5, 7, 6]), (2, 0));
    assert_eq!(find_two_largest(&vec![1, 1]), (0, 1));
}
