//! The first item of a sequence that has a wanted property.

use vstd::prelude::*;

verus! {

/// The first item that is wanted, if any is.
pub open spec fn first_matching<T>(items: Seq<T>, wanted: spec_fn(T) -> bool) -> Option<T>
    decreases items.len(),
{
    if items.len() == 0 {
        None
    } else if wanted(items.first()) {
        Some(items.first())
    } else {
        first_matching(items.drop_first(), wanted)
    }
}

/// What is found is wanted and stands in the sequence; nothing is found only
/// where no item is wanted.
pub proof fn lemma_first_matching<T>(items: Seq<T>, wanted: spec_fn(T) -> bool)
    ensures
        first_matching(items, wanted) matches Some(x) ==> wanted(x) && items.contains(x),
        first_matching(items, wanted) is None ==> forall|i: int|
            0 <= i < items.len() ==> !wanted(#[trigger] items[i]),
    decreases items.len(),
{
    if items.len() > 0 {
        let rest = items.drop_first();
        lemma_first_matching(rest, wanted);
        if wanted(items.first()) {
            assert(items[0] == items.first());
        } else {
            if let Some(x) = first_matching(rest, wanted) {
                let k = choose|k: int| 0 <= k < rest.len() && rest[k] == x;
                assert(items[k + 1] == x);
            } else {
                assert forall|i: int| 0 <= i < items.len() implies !wanted(#[trigger] items[i]) by {
                    if i > 0 {
                        assert(items[i] == rest[i - 1]);
                    }
                }
            }
        }
    }
}

/// Searching from position `i` either stops there or goes on behind it.
pub proof fn lemma_first_matching_step<T>(items: Seq<T>, wanted: spec_fn(T) -> bool, i: int)
    requires
        0 <= i < items.len(),
    ensures
        first_matching(items.skip(i), wanted) == if wanted(items[i]) {
            Some(items[i])
        } else {
            first_matching(items.skip(i + 1), wanted)
        },
{
    let tail = items.skip(i);
    assert(tail.first() == items[i]);
    assert(tail.drop_first() =~= items.skip(i + 1));
}

/// Where every wanted item of the sequence equals `x`, and `x` stands in it,
/// `x` is what is found.
pub proof fn lemma_only_match<T>(items: Seq<T>, wanted: spec_fn(T) -> bool, x: T)
    requires
        items.contains(x),
        wanted(x),
        forall|i: int| 0 <= i < items.len() && wanted(#[trigger] items[i]) ==> items[i] == x,
    ensures
        first_matching(items, wanted) == Some(x),
{
    lemma_first_matching(items, wanted);
    let k = choose|k: int| 0 <= k < items.len() && items[k] == x;
    match first_matching(items, wanted) {
        Some(y) => {
            let j = choose|j: int| 0 <= j < items.len() && items[j] == y;
            assert(wanted(items[j]));
        },
        None => {
            assert(!wanted(items[k]));
        },
    }
}

} // verus!
