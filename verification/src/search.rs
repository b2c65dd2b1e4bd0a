//! The first position at which something holds.

use vstd::prelude::*;

verus! {

/// Whether `at` is the first position below `len` at which `holds` is true.
pub open spec fn is_first(holds: spec_fn(int) -> bool, len: int, at: int) -> bool {
    &&& 0 <= at < len
    &&& holds(at)
    &&& forall|before: int| 0 <= before < at ==> !#[trigger] holds(before)
}

/// The first position below `len` at which `holds` is true, if there is one.
pub open spec fn first(holds: spec_fn(int) -> bool, len: int) -> Option<int> {
    if exists|at: int| is_first(holds, len, at) {
        Some(choose|at: int| is_first(holds, len, at))
    } else {
        None
    }
}

/// Only one position can be the first, and `first` is it.
pub proof fn lemma_first_is(holds: spec_fn(int) -> bool, len: int, at: int)
    requires
        is_first(holds, len, at),
    ensures
        first(holds, len) == Some(at),
{
    let chosen = choose|other: int| is_first(holds, len, other);
    assert(is_first(holds, len, chosen));
    if chosen < at {
        assert(!holds(chosen));
    }
    if at < chosen {
        assert(!holds(at));
    }
}

/// Below any bound, either some position is the first or `holds` is true
/// nowhere.
proof fn lemma_first_below(holds: spec_fn(int) -> bool, len: int)
    requires
        0 <= len,
    ensures
        (exists|at: int| is_first(holds, len, at)) || (forall|at: int|
            0 <= at < len ==> !#[trigger] holds(at)),
    decreases len,
{
    if len > 0 {
        let shorter = len - 1;
        lemma_first_below(holds, shorter);
        if exists|at: int| is_first(holds, shorter, at) {
            let at = choose|at: int| is_first(holds, shorter, at);
            assert(is_first(holds, len, at));
        } else if holds(shorter) {
            assert(is_first(holds, len, shorter));
        }
    }
}

/// What `first` finds is the first position, and where it finds none,
/// `holds` is true nowhere below `len`.
pub proof fn lemma_first(holds: spec_fn(int) -> bool, len: int)
    ensures
        match first(holds, len) {
            Some(at) => is_first(holds, len, at),
            None => forall|at: int| 0 <= at < len ==> !#[trigger] holds(at),
        },
{
    if len >= 0 {
        lemma_first_below(holds, len);
    }
}

} // verus!
