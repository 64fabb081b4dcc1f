//! Per-hand cooldown that keeps a gesture kind from firing again too soon.
use vstd::prelude::*;

use crate::models::{GestureKind, HandType};

verus! {

/// Position of a (hand, kind) pair in the table of last firing times.
pub open spec fn key_index(hand: HandType, kind: GestureKind) -> int {
    match (hand, kind) {
        (HandType::Left, GestureKind::Pinch) => 0,
        (HandType::Left, GestureKind::Flick) => 1,
        (HandType::Right, GestureKind::Pinch) => 2,
        (HandType::Right, GestureKind::Flick) => 3,
    }
}

fn key_slot(hand: HandType, kind: GestureKind) -> (r: usize)
    ensures
        r as int == key_index(hand, kind),
        r < 4,
{
    match (hand, kind) {
        (HandType::Left, GestureKind::Pinch) => 0,
        (HandType::Left, GestureKind::Flick) => 1,
        (HandType::Right, GestureKind::Pinch) => 2,
        (HandType::Right, GestureKind::Flick) => 3,
    }
}

/// A gesture of `key` may fire at `now` when it never fired, or when at least
/// `min_interval` milliseconds have passed since it last did.
pub open spec fn may_fire(
    fired: Map<(HandType, GestureKind), u64>,
    key: (HandType, GestureKind),
    now: u64,
    min_interval: u64,
) -> bool {
    !fired.contains_key(key) || now - fired[key] >= min_interval
}

/// The time, in milliseconds, at which each (hand, kind) pair last fired.
pub struct DebounceGate {
    last_fire: Vec<Option<u64>>,
}

impl View for DebounceGate {
    type V = Map<(HandType, GestureKind), u64>;

    /// The last firing time of each pair that has fired.
    closed spec fn view(&self) -> Map<(HandType, GestureKind), u64> {
        Map::new(
            |key: (HandType, GestureKind)| self.last_fire@[key_index(key.0, key.1)] is Some,
            |key: (HandType, GestureKind)| self.last_fire@[key_index(key.0, key.1)].unwrap(),
        )
    }
}

impl DebounceGate {
    /// The table has one entry per (hand, kind) pair.
    pub closed spec fn well_formed(&self) -> bool {
        self.last_fire.len() == 4
    }

    /// A gate under which nothing has fired yet.
    pub fn new() -> (r: DebounceGate)
        ensures
            r.well_formed(),
            r@ == Map::<(HandType, GestureKind), u64>::empty(),
    {
        let r = DebounceGate { last_fire: vec![None, None, None, None] };
        assert(r@ =~= Map::<(HandType, GestureKind), u64>::empty());
        r
    }

    /// The time at which `kind` last fired on `hand`, if it ever did.
    pub fn last_fire_time(&self, hand: HandType, kind: GestureKind) -> (r: Option<u64>)
        requires
            self.well_formed(),
        ensures
            r == if self@.contains_key((hand, kind)) {
                Some(self@[(hand, kind)])
            } else {
                None
            },
    {
        self.last_fire[key_slot(hand, kind)]
    }

    /// Fires `kind` on `hand` at `now` if the cooldown allows it, recording
    /// `now` as its last firing time; otherwise changes nothing.
    pub fn try_fire(&mut self, hand: HandType, kind: GestureKind, now: u64, min_interval: u64) -> (r:
        bool)
        requires
            old(self).well_formed(),
        ensures
            final(self).well_formed(),
            r == may_fire(old(self)@, (hand, kind), now, min_interval),
            final(self)@ == if r {
                old(self)@.insert((hand, kind), now)
            } else {
                old(self)@
            },
    {
        let i = key_slot(hand, kind);
        let allowed = match self.last_fire[i] {
            None => true,
            Some(t) => now >= t && now - t >= min_interval,
        };
        if allowed {
            self.last_fire.set(i, Some(now));
            assert(self@ =~= old(self)@.insert((hand, kind), now));
        }
        allowed
    }
}

} // verus!
