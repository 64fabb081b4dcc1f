//! The bounded history of frames, kept in a ring buffer that overwrites its
//! oldest frame when full.
use ringbuf::Rb;
use vstd::prelude::*;

use crate::models::{HandData, TwoHandsData};

verus! {

/// History capacity used when none is configured.
pub const DEFAULT_HISTORY_CAPACITY: usize = 30;

/// Largest history capacity: the ring's storage must fit in memory.
pub const MAX_HISTORY_CAPACITY: usize = 1048576;

/// A ring of frames held in a `ringbuf::HeapRb`.
#[verifier::external_body]
pub struct FrameRing {
    rb: ringbuf::HeapRb<TwoHandsData>,
}

/// The frames stored in a ring, oldest first.
pub uninterp spec fn ring_frames(r: FrameRing) -> Seq<TwoHandsData>;

/// The number of frames a ring was made to hold.
pub uninterp spec fn ring_capacity(r: FrameRing) -> nat;

/// Relies on ringbuf's `HeapRb::new`: an empty ring of the given capacity, which
/// panics only on a zero capacity or a failed allocation.
#[verifier::external_body]
fn ring_new(capacity: usize) -> (r: FrameRing)
    requires
        0 < capacity <= MAX_HISTORY_CAPACITY,
    ensures
        ring_frames(r) == Seq::<TwoHandsData>::empty(),
        ring_capacity(r) == capacity,
{
    FrameRing { rb: ringbuf::HeapRb::new(capacity) }
}

/// Relies on ringbuf's `Rb::push_overwrite`: a full ring first gives up its oldest
/// frame, which is returned; the new frame is appended as the newest.
#[verifier::external_body]
fn ring_push_overwrite(r: &mut FrameRing, frame: TwoHandsData) -> (evicted: Option<TwoHandsData>)
    ensures
        ring_capacity(*final(r)) == ring_capacity(*old(r)),
        ring_frames(*old(r)).len() == ring_capacity(*old(r)) ==> {
            &&& evicted == Some(ring_frames(*old(r))[0])
            &&& ring_frames(*final(r)) == ring_frames(*old(r)).drop_first().push(frame)
        },
        ring_frames(*old(r)).len() < ring_capacity(*old(r)) ==> {
            &&& evicted is None
            &&& ring_frames(*final(r)) == ring_frames(*old(r)).push(frame)
        },
{
    r.rb.push_overwrite(frame)
}

/// Relies on ringbuf's `Rb::iter`: the stored frames front to back, oldest first.
#[verifier::external_body]
fn ring_frames_oldest_first(r: &FrameRing) -> (v: Vec<TwoHandsData>)
    ensures
        v@ == ring_frames(*r),
{
    r.rb.iter().copied().collect()
}

/// The frames after pushing `frame` onto `frames` in a history of capacity `capacity`.
pub open spec fn pushed(frames: Seq<TwoHandsData>, capacity: nat, frame: TwoHandsData) -> Seq<
    TwoHandsData,
> {
    if frames.len() >= capacity {
        frames.drop_first().push(frame)
    } else {
        frames.push(frame)
    }
}

/// The frames after pushing each of `pushes` in turn, first to last.
pub open spec fn pushed_all(
    frames: Seq<TwoHandsData>,
    capacity: nat,
    pushes: Seq<TwoHandsData>,
) -> Seq<TwoHandsData>
    decreases pushes.len(),
{
    if pushes.len() == 0 {
        frames
    } else {
        pushed(pushed_all(frames, capacity, pushes.drop_last()), capacity, pushes.last())
    }
}

/// Pushing any frames onto a history keeps exactly the newest `capacity` of all
/// frames, old and pushed, in order; the oldest are evicted first.
pub proof fn lemma_pushed_all_keeps_newest(
    frames: Seq<TwoHandsData>,
    capacity: nat,
    pushes: Seq<TwoHandsData>,
)
    requires
        0 < capacity,
        frames.len() <= capacity,
    ensures
        ({
            let all = frames + pushes;
            let kept = if all.len() > capacity { capacity } else { all.len() };
            pushed_all(frames, capacity, pushes) == all.subrange(all.len() - kept, all.len() as int)
        }),
    decreases pushes.len(),
{
    let all = frames + pushes;
    if pushes.len() == 0 {
        assert(all.subrange(0, all.len() as int) =~= frames);
    } else {
        let before = pushes.drop_last();
        lemma_pushed_all_keeps_newest(frames, capacity, before);
        let prev = frames + before;
        assert(prev =~= all.drop_last());
        if prev.len() >= capacity {
            assert(all.subrange(prev.len() - capacity, prev.len() as int).drop_first().push(
                pushes.last(),
            ) =~= all.subrange(all.len() - capacity, all.len() as int));
        } else {
            assert(all.subrange(0, prev.len() as int).push(pushes.last()) =~= all.subrange(
                0,
                all.len() as int,
            ));
        }
    }
}

/// The samples of one slot, newest first, up to the newest frame in which the slot is empty.
pub open spec fn slot_window(frames: Seq<TwoHandsData>, slot: int) -> Seq<HandData>
    decreases frames.len(),
{
    if frames.len() == 0 {
        Seq::empty()
    } else {
        match frames.last()[slot] {
            Some(s) => seq![s] + slot_window(frames.drop_last(), slot),
            None => Seq::empty(),
        }
    }
}

/// The last `capacity` frames of the history, oldest first, with the samples of
/// the two hand slots.
pub struct HandsData {
    historical_data: FrameRing,
}

impl HandsData {
    /// The stored frames, oldest first.
    pub closed spec fn frames(&self) -> Seq<TwoHandsData> {
        ring_frames(self.historical_data)
    }

    /// The number of frames the history keeps.
    pub closed spec fn capacity(&self) -> nat {
        ring_capacity(self.historical_data)
    }

    /// The history holds no more frames than its capacity, which is valid.
    pub open spec fn well_formed(&self) -> bool {
        &&& self.frames().len() <= self.capacity()
        &&& 0 < self.capacity() <= MAX_HISTORY_CAPACITY
    }

    /// An empty history keeping up to `capacity` frames.
    pub fn new(capacity: usize) -> (r: HandsData)
        requires
            0 < capacity <= MAX_HISTORY_CAPACITY,
        ensures
            r.well_formed(),
            r.frames() == Seq::<TwoHandsData>::empty(),
            r.capacity() == capacity,
    {
        HandsData { historical_data: ring_new(capacity) }
    }

    /// Appends the newest frame; when the history is full its oldest frame is
    /// evicted and returned.
    pub fn push_overwrite(&mut self, elem: TwoHandsData) -> (evicted: Option<TwoHandsData>)
        requires
            old(self).well_formed(),
        ensures
            final(self).well_formed(),
            final(self).capacity() == old(self).capacity(),
            final(self).frames() == pushed(old(self).frames(), old(self).capacity(), elem),
            evicted == if old(self).frames().len() == old(self).capacity() {
                Some(old(self).frames()[0])
            } else {
                None
            },
    {
        ring_push_overwrite(&mut self.historical_data, elem)
    }

    /// The samples of slot `hand_index`, newest first, stopping at the newest
    /// frame in which that slot holds no hand.
    pub fn get_hand_iter(&self, hand_index: usize) -> (r: Vec<HandData>)
        requires
            hand_index < 2,
        ensures
            r@ == slot_window(self.frames(), hand_index as int),
    {
        let frames = ring_frames_oldest_first(&self.historical_data);
        let ghost all = frames@;
        let ghost slot = hand_index as int;
        let mut out: Vec<HandData> = Vec::new();
        let mut k: usize = frames.len();
        assert(all.subrange(0, k as int) =~= all);
        while k > 0
            invariant
                k <= all.len(),
                all == frames@,
                all == self.frames(),
                slot == hand_index as int,
                hand_index < 2,
                out@ + slot_window(all.subrange(0, k as int), slot) == slot_window(all, slot),
            decreases k,
        {
            let ghost before = all.subrange(0, k as int);
            assert(before.drop_last() =~= all.subrange(0, k - 1));
            match frames[k - 1][hand_index] {
                Some(s) => {
                    let ghost rest = slot_window(all.subrange(0, k - 1), slot);
                    assert(out@.push(s) + rest =~= out@ + (seq![s] + rest));
                    out.push(s);
                    k = k - 1;
                },
                None => {
                    assert(before.last() == all[k - 1]);
                    assert(slot_window(before, slot) == Seq::<HandData>::empty());
                    assert(out@ + Seq::<HandData>::empty() =~= out@);
                    return out;
                },
            }
        }
        assert(out@ + Seq::<HandData>::empty() =~= out@);
        out
    }

    /// The samples of both slots, each newest first up to its newest gap.
    pub fn get_iters(&self) -> (r: (Vec<HandData>, Vec<HandData>))
        ensures
            r.0@ == slot_window(self.frames(), 0),
            r.1@ == slot_window(self.frames(), 1),
    {
        (self.get_hand_iter(0), self.get_hand_iter(1))
    }
}

} // verus!
