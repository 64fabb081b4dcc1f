//! The three-phase pulse detector: calm, then active, then calm again, read
//! from the newest sample backwards.
use vstd::prelude::*;

use crate::models::{GestureKind, HandData, SIGNAL_MAX};

verus! {

/// A sample is calm when its signal lies below the threshold; otherwise it is active.
pub open spec fn is_calm(s: HandData, threshold: u32) -> bool {
    s.signal < threshold
}

/// In the newest-first window `w`, samples `0..a` are calm, samples `a..k` are
/// active and sample `k` is calm again: a pulse that completed, ending at `k`.
pub open spec fn pulse_bounds(w: Seq<HandData>, threshold: u32, a: int, k: int) -> bool {
    &&& 0 < a < k < w.len()
    &&& forall|i: int| 0 <= i < a ==> #[trigger] is_calm(w[i], threshold)
    &&& forall|i: int| a <= i < k ==> !#[trigger] is_calm(w[i], threshold)
    &&& is_calm(w[k], threshold)
}

/// Sample `k` of `w` is the calm sample that completes a pulse.
pub open spec fn ends_pulse_at(w: Seq<HandData>, threshold: u32, k: int) -> bool {
    exists|a: int| #[trigger] pulse_bounds(w, threshold, a, k)
}

/// The position in `w` of the calm sample that completes the newest pulse, if
/// the window holds one.
pub open spec fn pulse_end(w: Seq<HandData>, threshold: u32) -> Option<int> {
    if exists|a: int, k: int| pulse_bounds(w, threshold, a, k) {
        Some(choose|k: int| ends_pulse_at(w, threshold, k))
    } else {
        None
    }
}

/// A window holds at most one pulse shape.
pub proof fn lemma_pulse_bounds_unique(
    w: Seq<HandData>,
    threshold: u32,
    a1: int,
    k1: int,
    a2: int,
    k2: int,
)
    requires
        pulse_bounds(w, threshold, a1, k1),
        pulse_bounds(w, threshold, a2, k2),
    ensures
        a1 == a2,
        k1 == k2,
{
    if a1 < a2 {
        assert(is_calm(w[a1], threshold));
        assert(!is_calm(w[a1], threshold));
    }
    if a2 < a1 {
        assert(is_calm(w[a2], threshold));
        assert(!is_calm(w[a2], threshold));
    }
    if k1 < k2 {
        assert(!is_calm(w[k1], threshold));
    }
    if k2 < k1 {
        assert(!is_calm(w[k2], threshold));
    }
}

/// Once a pulse shape is found, it is the one that `pulse_end` names.
pub proof fn lemma_pulse_end_at(w: Seq<HandData>, threshold: u32, a: int, k: int)
    requires
        pulse_bounds(w, threshold, a, k),
    ensures
        pulse_end(w, threshold) == Some(k),
{
    assert(exists|a: int, k: int| pulse_bounds(w, threshold, a, k));
    assert(ends_pulse_at(w, threshold, k));
    let k2 = choose|k2: int| ends_pulse_at(w, threshold, k2);
    let a2 = choose|a2: int| pulse_bounds(w, threshold, a2, k2);
    lemma_pulse_bounds_unique(w, threshold, a, k, a2, k2);
}

/// A window of fewer than three samples cannot show calm, active and calm.
pub proof fn lemma_short_window_has_no_pulse(w: Seq<HandData>, threshold: u32)
    requires
        w.len() < 3,
    ensures
        pulse_end(w, threshold) is None,
{
    assert forall|a: int, k: int| !pulse_bounds(w, threshold, a, k) by {}
}

/// A window in which every sample is active never completes a pulse: no calm
/// sample precedes the activity.
pub proof fn lemma_all_active_has_no_pulse(w: Seq<HandData>, threshold: u32)
    requires
        forall|i: int| 0 <= i < w.len() ==> !#[trigger] is_calm(w[i], threshold),
    ensures
        pulse_end(w, threshold) is None,
{
    assert forall|a: int, k: int| !pulse_bounds(w, threshold, a, k) by {
        if pulse_bounds(w, threshold, a, k) {
            assert(is_calm(w[0], threshold));
        }
    }
}

/// The phase a scan has reached, with the number of samples seen in it.
pub enum Stage {
    BeforePulse(usize),
    InPulse(usize),
    AfterPulse,
}

/// A detector of one gesture kind, firing on pulses of the signal across `threshold`.
#[derive(Copy, Clone, Debug, PartialEq, Eq)]
pub struct GesturePhaseDetector {
    pub kind: GestureKind,
    pub threshold: u32,
}

impl GesturePhaseDetector {
    /// The threshold lies strictly inside the normalized range.
    pub open spec fn well_formed(&self) -> bool {
        0 < self.threshold < SIGNAL_MAX
    }

    /// Scans `window`, newest sample first, and returns the position of the
    /// calm sample that completes a pulse, or `None` when the window shows none.
    pub fn scan(&self, window: &Vec<HandData>) -> (r: Option<usize>)
        ensures
            match r {
                Some(k) => k < window.len() && pulse_end(window@, self.threshold) == Some(k as int),
                None => pulse_end(window@, self.threshold) is None,
            },
    {
        let threshold = self.threshold;
        let ghost w = window@;
        let ghost mut start: int = 0;
        let mut stage = Stage::BeforePulse(0);
        let mut i: usize = 0;
        while i < window.len()
            invariant
                i <= w.len(),
                w == window@,
                threshold == self.threshold,
                match stage {
                    Stage::BeforePulse(count) => {
                        &&& count == i
                        &&& forall|j: int| 0 <= j < i ==> #[trigger] is_calm(w[j], threshold)
                    },
                    Stage::InPulse(count) => {
                        &&& 0 < start <= i
                        &&& start < w.len()
                        &&& count == i - start
                        &&& forall|j: int| 0 <= j < start ==> #[trigger] is_calm(w[j], threshold)
                        &&& forall|j: int| start <= j < i ==> !#[trigger] is_calm(w[j], threshold)
                        &&& !is_calm(w[start], threshold)
                    },
                    Stage::AfterPulse => false,
                },
            decreases 2 * (w.len() - i) + if stage is BeforePulse { 1int } else { 0int },
        {
            let calm = window[i].signal < threshold;
            match stage {
                Stage::BeforePulse(count) => {
                    if calm {
                        stage = Stage::BeforePulse(count + 1);
                        i = i + 1;
                    } else if count != 0 {
                        // the crossing sample opens the pulse and is read again in it
                        proof {
                            start = i as int;
                        }
                        stage = Stage::InPulse(0);
                    } else {
                        proof {
                            assert forall|a: int, k: int| !pulse_bounds(w, threshold, a, k) by {
                                if pulse_bounds(w, threshold, a, k) {
                                    assert(is_calm(w[0], threshold));
                                }
                            }
                        }
                        return None;
                    }
                },
                Stage::InPulse(count) => {
                    if !calm {
                        stage = Stage::InPulse(count + 1);
                        i = i + 1;
                    } else if count != 0 {
                        stage = Stage::AfterPulse;
                        proof {
                            lemma_pulse_end_at(w, threshold, start, i as int);
                        }
                        return Some(i);
                    } else {
                        return None;
                    }
                },
                Stage::AfterPulse => {
                    return None;
                },
            }
        }
        proof {
            assert forall|a: int, k: int| !pulse_bounds(w, threshold, a, k) by {
                if pulse_bounds(w, threshold, a, k) {
                    match stage {
                        Stage::BeforePulse(_) => {
                            assert(!is_calm(w[a], threshold));
                        },
                        Stage::InPulse(_) => {
                            if a < start {
                                assert(!is_calm(w[a], threshold));
                            } else if start < a {
                                assert(is_calm(w[start], threshold));
                            }
                            assert(is_calm(w[k], threshold));
                        },
                        Stage::AfterPulse => {},
                    }
                }
            }
        }
        None
    }
}

} // verus!
