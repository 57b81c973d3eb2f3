//! What picking from a list keeps.

use vstd::prelude::*;

verus! {

/// What is picked passed the test and came from the list.
pub proof fn picked_items_pass<T>(items: Seq<T>, keep: spec_fn(T) -> bool, i: int)
    requires
        0 <= i < items.filter(keep).len(),
    ensures
        keep(items.filter(keep)[i]),
        items.contains(items.filter(keep)[i]),
    decreases items.len(),
{
    reveal(Seq::filter);
    if items.len() > 0 {
        let init = items.drop_last();
        if i < init.filter(keep).len() {
            picked_items_pass(init, keep, i);
            let k = choose|k: int| 0 <= k < init.len() && init[k] == init.filter(keep)[i];
            assert(items[k] == items.filter(keep)[i]);
        } else {
            assert(items[items.len() - 1] == items.filter(keep)[i]);
        }
    }
}

/// What passes the test is picked.
pub proof fn passing_items_are_picked<T>(items: Seq<T>, keep: spec_fn(T) -> bool, k: int)
    requires
        0 <= k < items.len(),
        keep(items[k]),
    ensures
        items.filter(keep).contains(items[k]),
    decreases items.len(),
{
    reveal(Seq::filter);
    let init = items.drop_last();
    if k < init.len() {
        passing_items_are_picked(init, keep, k);
        let i = choose|i: int| 0 <= i < init.filter(keep).len() && init.filter(keep)[i] == init[k];
        assert(items.filter(keep)[i] == items[k]);
    } else {
        assert(items.filter(keep)[items.filter(keep).len() - 1] == items[k]);
    }
}

/// Where everything passes the test, everything is picked.
pub proof fn all_passing_items_stay<T>(items: Seq<T>, keep: spec_fn(T) -> bool)
    requires
        forall|i: int| 0 <= i < items.len() ==> keep(#[trigger] items[i]),
    ensures
        items.filter(keep) == items,
    decreases items.len(),
{
    reveal(Seq::filter);
    if items.len() > 0 {
        let init = items.drop_last();
        all_passing_items_stay(init, keep);
        assert(init.push(items.last()) =~= items);
    }
}

/// What is picked keeps its order.
pub proof fn picked_items_keep_their_order<T>(
    items: Seq<T>,
    keep: spec_fn(T) -> bool,
    i: int,
    j: int,
)
    requires
        0 <= i < j < items.filter(keep).len(),
    ensures
        exists|a: int, b: int|
            0 <= a < b < items.len() && #[trigger] items[a] == items.filter(keep)[i]
                && #[trigger] items[b] == items.filter(keep)[j],
    decreases items.len(),
{
    reveal(Seq::filter);
    let init = items.drop_last();
    let out = items.filter(keep);
    let before = init.filter(keep);
    if j < before.len() {
        picked_items_keep_their_order(init, keep, i, j);
        let (a, b) = choose|a: int, b: int|
            0 <= a < b < init.len() && #[trigger] init[a] == before[i] && #[trigger] init[b]
                == before[j];
        assert(items[a] == out[i] && items[b] == out[j]);
    } else {
        picked_items_pass(init, keep, i);
        let a = choose|a: int| 0 <= a < init.len() && init[a] == before[i];
        let b = items.len() - 1;
        assert(items[a] == out[i] && items[b] == out[j]);
    }
}

} // verus!
