//! What holds of filtering for every channel and every set of terms.

use crate::channel::FeedItem;
use crate::filter::{contains_seq, kept, title_blocked, title_passes};
use vstd::prelude::*;

verus! {

/// `idx` picks `out` from `items`: `out[j]` is `items[idx[j]]`, the picked
/// positions increase, and a position is picked exactly when its item's
/// title passes `terms`.
pub open spec fn selects(
    items: Seq<FeedItem>,
    out: Seq<FeedItem>,
    idx: Seq<int>,
    terms: Seq<Seq<char>>,
) -> bool {
    &&& idx.len() == out.len()
    &&& forall|j: int|
        0 <= j < idx.len() ==> 0 <= #[trigger] idx[j] < items.len() && out[j] == items[idx[j]]
    &&& forall|a: int, b: int| 0 <= a < b < idx.len() ==> #[trigger] idx[a] < #[trigger] idx[b]
    &&& forall|i: int|
        0 <= i < items.len() ==> (title_passes(#[trigger] items[i].title_view(), terms)
            <==> idx.contains(i))
}

/// The positions of the items of `items` that survive `terms`.
pub open spec fn kept_positions(items: Seq<FeedItem>, terms: Seq<Seq<char>>) -> Seq<int>
    decreases items.len(),
{
    if items.len() == 0 {
        Seq::empty()
    } else {
        let rest = kept_positions(items.drop_last(), terms);
        if title_passes(items.last().title_view(), terms) {
            rest.push(items.len() - 1)
        } else {
            rest
        }
    }
}

proof fn lemma_kept_positions_select(items: Seq<FeedItem>, terms: Seq<Seq<char>>)
    ensures
        selects(items, kept(items, terms), kept_positions(items, terms), terms),
    decreases items.len(),
{
    if items.len() > 0 {
        let p = items.drop_last();
        let n = items.len() - 1;
        lemma_kept_positions_select(p, terms);
        let ri = kept_positions(p, terms);
        let idx = kept_positions(items, terms);
        let out = kept(items, terms);
        assert forall|j: int| 0 <= j < idx.len() implies 0 <= #[trigger] idx[j] < items.len()
            && out[j] == items[idx[j]] by {
            if j < ri.len() {
                assert(p[ri[j]] == items[ri[j]]);
            }
        }
        assert forall|i: int| 0 <= i < items.len() implies (title_passes(
            #[trigger] items[i].title_view(),
            terms,
        ) <==> idx.contains(i)) by {
            if i < n {
                assert(p[i] == items[i]);
                if ri.contains(i) {
                    let j = choose|j: int| 0 <= j < ri.len() && ri[j] == i;
                    assert(idx[j] == i);
                }
                if idx.contains(i) {
                    let j = choose|j: int| 0 <= j < idx.len() && idx[j] == i;
                    assert(j < ri.len());
                    assert(ri[j] == i);
                }
            } else {
                if title_passes(items.last().title_view(), terms) {
                    assert(idx[idx.len() - 1] == n);
                } else {
                    if idx.contains(i) {
                        let j = choose|j: int| 0 <= j < idx.len() && idx[j] == i;
                        assert(ri[j] < p.len());
                    }
                }
            }
        }
    }
}

/// Filtering keeps a subsequence of the items in their original order, and
/// an item survives exactly when it has no title or no term occurs in its
/// title.
pub proof fn lemma_filter_is_order_preserving_selection(
    items: Seq<FeedItem>,
    terms: Seq<Seq<char>>,
)
    ensures
        exists|idx: Seq<int>| selects(items, kept(items, terms), idx, terms),
{
    lemma_kept_positions_select(items, terms);
}

/// With no terms, filtering keeps every item.
pub proof fn lemma_no_terms_is_identity(items: Seq<FeedItem>, terms: Seq<Seq<char>>)
    requires
        terms.len() == 0,
    ensures
        kept(items, terms) == items,
    decreases items.len(),
{
    if items.len() > 0 {
        lemma_no_terms_is_identity(items.drop_last(), terms);
        assert(!title_blocked(items.last().title_view().unwrap_or(Seq::empty()), terms));
        assert(items.drop_last().push(items.last()) =~= items);
    }
}

proof fn lemma_kept_all_pass(items: Seq<FeedItem>, terms: Seq<Seq<char>>)
    ensures
        forall|j: int|
            0 <= j < kept(items, terms).len() ==> title_passes(
                #[trigger] kept(items, terms)[j].title_view(),
                terms,
            ),
    decreases items.len(),
{
    if items.len() > 0 {
        lemma_kept_all_pass(items.drop_last(), terms);
    }
}

/// A title equal to one of the terms contains it, so no item with that
/// title survives.
pub proof fn lemma_exact_title_removed(
    items: Seq<FeedItem>,
    terms: Seq<Seq<char>>,
    k: int,
)
    requires
        0 <= k < terms.len(),
    ensures
        !title_passes(Option::Some(terms[k]), terms),
        forall|j: int|
            0 <= j < kept(items, terms).len() ==> #[trigger] kept(items, terms)[j].title_view()
                != Option::Some(terms[k]),
{
    let t = terms[k];
    assert(t.subrange(0int, 0int + t.len()) =~= t);
    assert(contains_seq(t, t));
    assert(title_blocked(t, terms));
    lemma_kept_all_pass(items, terms);
}

} // verus!
