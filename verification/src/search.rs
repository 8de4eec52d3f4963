//! Linear search, stated once: the first position at which a list holds an
//! item of a given kind.

use vstd::prelude::*;

verus! {

/// The first position of `items` whose item satisfies `hit`; the length of
/// `items` where none does.
pub open spec fn first_index<T>(items: Seq<T>, hit: spec_fn(T) -> bool) -> int
    decreases items.len(),
{
    if items.len() == 0 {
        0
    } else if hit(items.first()) {
        0
    } else {
        1 + first_index(items.skip(1), hit)
    }
}

/// What `first_index` means: it is in range, no item before it satisfies
/// `hit`, and the item at it does where there is one.
pub proof fn lemma_first_index<T>(items: Seq<T>, hit: spec_fn(T) -> bool)
    ensures
        0 <= first_index(items, hit) <= items.len(),
        forall|k: int| 0 <= k < first_index(items, hit) ==> !hit(#[trigger] items[k]),
        first_index(items, hit) < items.len() ==> hit(items[first_index(items, hit)]),
    decreases items.len(),
{
    if items.len() > 0 && !hit(items.first()) {
        let rest = items.skip(1);
        lemma_first_index(rest, hit);
        assert forall|k: int| 0 <= k < first_index(items, hit) implies !hit(#[trigger] items[k]) by {
            if k > 0 {
                assert(rest[k - 1] == items[k]);
            }
        }
        if first_index(items, hit) < items.len() {
            assert(rest[first_index(rest, hit)] == items[first_index(items, hit)]);
        }
    }
}

/// A position before which nothing satisfies `hit` is the first index where
/// its own item does, and is the length where it is the end of the list.
pub proof fn lemma_first_index_is<T>(items: Seq<T>, hit: spec_fn(T) -> bool, at: int)
    requires
        0 <= at <= items.len(),
        forall|k: int| 0 <= k < at ==> !hit(#[trigger] items[k]),
        at < items.len() ==> hit(items[at]),
    ensures
        first_index(items, hit) == at,
{
    lemma_first_index(items, hit);
    let found = first_index(items, hit);
    if found < at {
        assert(!hit(items[found]));
    } else if found > at {
        assert(!hit(items[at]));
    }
}

} // verus!
