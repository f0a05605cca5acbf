//! The first position at which something holds: the one notion behind every
//! lookup of this library (a member by its key, a table by its name, a row by
//! its id, the weekday mark of a card).

use vstd::prelude::*;

verus! {

/// `i` is a position of `mask` that holds, and none before it does.
pub open spec fn is_first(mask: Seq<bool>, i: int) -> bool {
    &&& 0 <= i < mask.len()
    &&& mask[i]
    &&& forall|j: int| 0 <= j < i ==> !mask[j]
}

/// The least position of `mask` that holds, if any does.
pub open spec fn first_true(mask: Seq<bool>) -> Option<int> {
    if exists|i: int| is_first(mask, i) {
        Some(choose|i: int| is_first(mask, i))
    } else {
        None
    }
}

/// How many positions of `mask` hold.
pub open spec fn count_true(mask: Seq<bool>) -> nat
    decreases mask.len(),
{
    if mask.len() == 0 {
        0
    } else {
        count_true(mask.drop_last()) + if mask.last() {
            1nat
        } else {
            0nat
        }
    }
}

/// A position that holds with none before it is the first.
pub proof fn lemma_first_true_at(mask: Seq<bool>, i: int)
    requires
        is_first(mask, i),
    ensures
        first_true(mask) == Some(i),
{
    // Two first positions are one: each holds, and nothing holds before the
    // other.
    let chosen = choose|k: int| is_first(mask, k);
    assert(chosen == i);
}

/// Where no position holds there is no first.
pub proof fn lemma_first_true_none(mask: Seq<bool>)
    requires
        forall|j: int| 0 <= j < mask.len() ==> !mask[j],
    ensures
        first_true(mask) is None,
{
}

/// What `first_true` finds is a first position, and it finds one wherever a
/// position holds.
pub proof fn lemma_first_true_is_first(mask: Seq<bool>)
    ensures
        first_true(mask) matches Some(i) ==> is_first(mask, i),
        first_true(mask) is None ==> forall|j: int| 0 <= j < mask.len() ==> !mask[j],
{
    if first_true(mask) is None {
        assert forall|j: int| 0 <= j < mask.len() implies !mask[j] by {
            if mask[j] {
                lemma_some_first(mask, j);
            }
        }
    }
}

/// Below a position that holds there is a first one.
proof fn lemma_some_first(mask: Seq<bool>, j: int)
    requires
        0 <= j < mask.len(),
        mask[j],
    ensures
        exists|i: int| is_first(mask, i),
    decreases j,
{
    if exists|k: int| 0 <= k < j && mask[k] {
        let k = choose|k: int| 0 <= k < j && mask[k];
        lemma_some_first(mask, k);
    } else {
        assert(is_first(mask, j));
    }
}

} // verus!
