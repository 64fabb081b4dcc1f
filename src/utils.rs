//! Selection of the two largest keys of a sequence.
use vstd::prelude::*;

verus! {

/// `keys[i]` is the largest of `keys` outside position `skip`, and no earlier
/// position outside `skip` holds as large a key.
pub open spec fn is_first_largest_except(keys: Seq<u64>, i: int, skip: int) -> bool {
    &&& 0 <= i < keys.len()
    &&& i != skip
    &&& forall|j: int| 0 <= j < keys.len() && j != skip ==> #[trigger] keys[j] <= keys[i]
    &&& forall|j: int| 0 <= j < i && j != skip ==> #[trigger] keys[j] < keys[i]
}

/// Positions of the largest key and of the largest among the others; of equal
/// keys the earliest is taken.
pub fn find_two_largest(keys: &Vec<u64>) -> (r: (usize, usize))
    requires
        keys.len() >= 2,
    ensures
        is_first_largest_except(keys@, r.0 as int, -1),
        is_first_largest_except(keys@, r.1 as int, r.0 as int),
{
    let mut largest: usize = 0;
    let mut second_largest: usize = 1;
    if keys[1] > keys[0] {
        largest = 1;
        second_largest = 0;
    }
    let mut i: usize = 2;
    while i < keys.len()
        invariant
            2 <= i <= keys.len(),
            is_first_largest_except(keys@.subrange(0, i as int), largest as int, -1),
            is_first_largest_except(keys@.subrange(0, i as int), second_largest as int, largest as int),
        decreases keys.len() - i,
    {
        let key = keys[i];
        let ghost prefix = keys@.subrange(0, i + 1);
        assert(forall|j: int| 0 <= j < i ==> prefix[j] == keys@.subrange(0, i as int)[j]);
        if key > keys[largest] {
            second_largest = largest;
            largest = i;
        } else if key > keys[second_largest] {
            second_largest = i;
        }
        i = i + 1;
    }
    assert(keys@.subrange(0, i as int) =~= keys@);
    (largest, second_largest)
}

} // verus!
