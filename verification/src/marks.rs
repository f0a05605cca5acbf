//! The weekday marks of a card: a text with one character for each weekday,
//! Monday first, in which `'1'` marks a weekday on which the lesson is held.

use vstd::prelude::*;

use crate::clock::weekday_number;
use crate::scan::{first_true, lemma_first_true_at, lemma_first_true_none};

verus! {

/// For each character of `days`, whether it is the mark `'1'`.
pub open spec fn marks(days: Seq<char>) -> Seq<bool> {
    Seq::new(days.len(), |i: int| days[i] == '1')
}

/// The weekday that `days` marks: the position of its first `'1'`, where
/// there is one and it is one of the seven weekdays.
pub open spec fn marked_weekday(days: Seq<char>) -> Option<u32> {
    match first_true(marks(days)) {
        Some(i) => if i < 7 {
            Some(i as u32)
        } else {
            None
        },
        None => None,
    }
}

/// The position of the first `'1'` of `days`.
pub fn first_mark(days: &str) -> (found: Option<usize>)
    ensures
        match found {
            Some(i) => first_true(marks(days@)) == Some(i as int),
            None => first_true(marks(days@)) is None,
        },
{
    let ghost hits = marks(days@);
    let length = days.unicode_len();
    let mut i: usize = 0;
    for c in it: days.chars()
        invariant
            it.seq() == days@,
            i == it.index(),
            length == days@.len(),
            hits == marks(days@),
            forall|j: int| 0 <= j < i ==> !hits[j],
    {
        if c == '1' {
            proof {
                lemma_first_true_at(hits, i as int);
            }
            return Some(i);
        }
        i += 1;
    }
    proof {
        lemma_first_true_none(hits);
    }
    None
}

/// The weekday that `days` marks.
pub fn weekday_mark(days: &str) -> (weekday: Option<u32>)
    ensures
        weekday == marked_weekday(days@),
        weekday matches Some(w) ==> w < 7,
{
    match first_mark(days) {
        Some(i) => weekday_number(i as u64),
        None => None,
    }
}

} // verus!
