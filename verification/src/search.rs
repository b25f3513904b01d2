//! Byte-exact search for a signature in a binary image.

use vstd::prelude::*;

verus! {

/// Whether `needle` stands in `haystack` at index `at`.
pub open spec fn occurs_at(haystack: Seq<u8>, needle: Seq<u8>, at: int) -> bool {
    &&& 0 <= at
    &&& at + needle.len() <= haystack.len()
    &&& haystack.subrange(at, at + needle.len()) == needle
}

/// Whether `at` is the leftmost index at which the non-empty `needle` stands
/// in `haystack`.
pub open spec fn is_first_occurrence(haystack: Seq<u8>, needle: Seq<u8>, at: int) -> bool {
    &&& needle.len() > 0
    &&& occurs_at(haystack, needle, at)
    &&& forall|j: int| 0 <= j < at ==> !occurs_at(haystack, needle, j)
}

/// The leftmost index at which `needle` stands in `haystack`; `None` when the
/// needle is empty or stands nowhere.
pub open spec fn first_occurrence(haystack: Seq<u8>, needle: Seq<u8>) -> Option<int> {
    if exists|i: int| is_first_occurrence(haystack, needle, i) {
        Some(choose|i: int| is_first_occurrence(haystack, needle, i))
    } else {
        None
    }
}

/// Whether the non-empty `needle` stands anywhere in `haystack`.
pub open spec fn occurs(haystack: Seq<u8>, needle: Seq<u8>) -> bool {
    needle.len() > 0 && exists|i: int| occurs_at(haystack, needle, i)
}

/// An occurrence, byte by byte.
pub proof fn lemma_occurs_at_bytes(haystack: Seq<u8>, needle: Seq<u8>, at: int)
    ensures
        occurs_at(haystack, needle, at) <==> {
            &&& 0 <= at
            &&& at + needle.len() <= haystack.len()
            &&& forall|k: int| 0 <= k < needle.len() ==> haystack[at + k] == #[trigger] needle[k]
        },
{
    if 0 <= at && at + needle.len() <= haystack.len() {
        let window = haystack.subrange(at, at + needle.len());
        if forall|k: int| 0 <= k < needle.len() ==> haystack[at + k] == #[trigger] needle[k] {
            assert(window =~= needle);
        }
        if window == needle {
            assert forall|k: int| 0 <= k < needle.len() implies haystack[at + k]
                == #[trigger] needle[k] by {
                assert(window[k] == haystack[at + k]);
            }
        }
    }
}

/// The leftmost occurrence is unique, so naming one names the result of the
/// search.
pub proof fn lemma_first_occurrence_is(haystack: Seq<u8>, needle: Seq<u8>, at: int)
    requires
        is_first_occurrence(haystack, needle, at),
    ensures
        first_occurrence(haystack, needle) == Some(at),
{
    let chosen = choose|i: int| is_first_occurrence(haystack, needle, i);
    assert(is_first_occurrence(haystack, needle, chosen));
    if chosen < at {
        assert(!occurs_at(haystack, needle, chosen));
    } else if at < chosen {
        assert(!occurs_at(haystack, needle, at));
    }
}

/// Wherever a non-empty needle occurs, it has a leftmost occurrence at or
/// before that place.
pub proof fn lemma_occurrence_has_first(haystack: Seq<u8>, needle: Seq<u8>, at: int)
    requires
        needle.len() > 0,
        occurs_at(haystack, needle, at),
    ensures
        first_occurrence(haystack, needle) is Some,
        first_occurrence(haystack, needle).unwrap() <= at,
        is_first_occurrence(haystack, needle, first_occurrence(haystack, needle).unwrap()),
    decreases at,
{
    if exists|j: int| 0 <= j < at && occurs_at(haystack, needle, j) {
        let j = choose|j: int| 0 <= j < at && occurs_at(haystack, needle, j);
        lemma_occurrence_has_first(haystack, needle, j);
    } else {
        assert(is_first_occurrence(haystack, needle, at));
        lemma_first_occurrence_is(haystack, needle, at);
    }
}

/// What the search returns, in full: the leftmost occurrence where there is
/// one, and nothing for an empty needle or one that stands nowhere.
pub proof fn lemma_first_occurrence(haystack: Seq<u8>, needle: Seq<u8>)
    ensures
        match first_occurrence(haystack, needle) {
            Some(at) => is_first_occurrence(haystack, needle, at),
            None => needle.len() == 0 || forall|j: int| !occurs_at(haystack, needle, j),
        },
{
    match first_occurrence(haystack, needle) {
        Some(at) => {},
        None => {
            if needle.len() > 0 {
                assert forall|j: int| !occurs_at(haystack, needle, j) by {
                    if occurs_at(haystack, needle, j) {
                        lemma_occurrence_has_first(haystack, needle, j);
                    }
                }
            }
        },
    }
}

/// The search finds something exactly where the needle occurs.
pub proof fn lemma_occurs(haystack: Seq<u8>, needle: Seq<u8>)
    ensures
        occurs(haystack, needle) <==> first_occurrence(haystack, needle) is Some,
{
    lemma_first_occurrence(haystack, needle);
    if occurs(haystack, needle) {
        let at = choose|i: int| occurs_at(haystack, needle, i);
        lemma_occurrence_has_first(haystack, needle, at);
    }
}

} // verus!
