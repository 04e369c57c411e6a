//! Selecting from a sequence keeps the order of what is selected.
//!
//! The schema and the constructor are selections: the properties among the
//! statements, the parameters among the properties. Each is written with
//! `Seq::filter_map`, and this file states once what that means for the place
//! of each item.

use vstd::prelude::*;

verus! {

/// How many of the items before index `i` are selected: the place that the
/// item at `i` takes in the selection, if it is selected itself.
pub open spec fn kept_before<A, B>(items: Seq<A>, pick: spec_fn(A) -> Option<B>, i: int) -> int {
    items.take(i).filter_map(pick).len() as int
}

/// The selection from the first `i + 1` items is the selection from the first
/// `i`, followed by what the item at `i` gives.
pub proof fn selection_grows<A, B>(items: Seq<A>, pick: spec_fn(A) -> Option<B>, i: int)
    requires
        0 <= i < items.len(),
    ensures
        items.take(i + 1).filter_map(pick) == items.take(i).filter_map(pick) + (match pick(
            items[i],
        ) {
            Some(b) => seq![b],
            None => Seq::empty(),
        }),
{
    items.lemma_filter_map_take_succ(pick, i);
}

/// The selection from a prefix opens the selection from a longer prefix.
pub proof fn selection_of_prefix<A, B>(
    items: Seq<A>,
    pick: spec_fn(A) -> Option<B>,
    i: int,
    j: int,
)
    requires
        0 <= i <= j <= items.len(),
    ensures
        items.take(i).filter_map(pick).is_prefix_of(items.take(j).filter_map(pick)),
    decreases j - i,
{
    if i < j {
        selection_of_prefix(items, pick, i, j - 1);
        selection_grows(items, pick, j - 1);
    }
}

/// A selected item stands in the selection at the place `kept_before` gives.
pub proof fn selected_item_has_its_place<A, B>(
    items: Seq<A>,
    pick: spec_fn(A) -> Option<B>,
    i: int,
)
    requires
        0 <= i < items.len(),
        pick(items[i]) is Some,
    ensures
        0 <= kept_before(items, pick, i) < items.filter_map(pick).len(),
        items.filter_map(pick)[kept_before(items, pick, i)] == pick(items[i])->0,
{
    selection_grows(items, pick, i);
    selection_of_prefix(items, pick, i + 1, items.len() as int);
    assert(items.take(items.len() as int) =~= items);
    let k = kept_before(items, pick, i);
    let upto = items.take(i + 1).filter_map(pick);
    assert(upto[k] == pick(items[i])->0);
    assert(upto == items.filter_map(pick).subrange(0, upto.len() as int));
}

/// Of two items, the earlier has the lower place, if it is selected.
pub proof fn places_follow_the_items<A, B>(
    items: Seq<A>,
    pick: spec_fn(A) -> Option<B>,
    i: int,
    j: int,
)
    requires
        0 <= i < j <= items.len(),
        pick(items[i]) is Some,
    ensures
        kept_before(items, pick, i) < kept_before(items, pick, j),
{
    selection_grows(items, pick, i);
    selection_of_prefix(items, pick, i + 1, j);
}

/// Every place in the selection is the place of a selected item.
pub proof fn every_place_is_taken<A, B>(items: Seq<A>, pick: spec_fn(A) -> Option<B>, k: int) -> (i:
    int)
    requires
        0 <= k < items.filter_map(pick).len(),
    ensures
        0 <= i < items.len(),
        pick(items[i]) is Some,
        kept_before(items, pick, i) == k,
    decreases items.len(),
{
    let last = items.len() - 1;
    assert(items.take(items.len() as int) =~= items);
    assert(items.take(last) =~= items.drop_last());
    selection_grows(items, pick, last);
    if pick(items[last]) is Some && k == kept_before(items, pick, last) {
        last
    } else {
        let i = every_place_is_taken(items.drop_last(), pick, k);
        assert(items.drop_last().take(i) =~= items.take(i));
        i
    }
}

} // verus!
