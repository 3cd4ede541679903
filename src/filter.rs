//! Title filtering: which items of a channel survive a set of terms.

use crate::channel::{rss_title, FeedItem};
use vstd::prelude::*;

verus! {

/// `t` occurs in `s` as a contiguous run of characters (the empty run occurs
/// everywhere).
pub open spec fn contains_seq(s: Seq<char>, t: Seq<char>) -> bool {
    exists|i: int| 0 <= i <= s.len() - t.len() && #[trigger] s.subrange(i, i + t.len()) == t
}

/// Some term of `terms` occurs in `title`.
pub open spec fn title_blocked(title: Seq<char>, terms: Seq<Seq<char>>) -> bool {
    exists|k: int| 0 <= k < terms.len() && contains_seq(title, #[trigger] terms[k])
}

/// An item with this title survives the terms: it has no title, or no term
/// occurs in its title.
pub open spec fn title_passes(title: Option<Seq<char>>, terms: Seq<Seq<char>>) -> bool {
    match title {
        Option::None => true,
        Option::Some(t) => !title_blocked(t, terms),
    }
}

/// The terms as character sequences.
pub open spec fn terms_view(terms: Seq<String>) -> Seq<Seq<char>> {
    terms.map_values(|s: String| s@)
}

/// An optional string as an optional character sequence.
pub open spec fn opt_view(o: Option<String>) -> Option<Seq<char>> {
    match o {
        Option::Some(t) => Option::Some(t@),
        Option::None => Option::None,
    }
}

/// Relies on `str::contains` with a `&str` pattern: true exactly when the
/// pattern occurs as a contiguous part of the string.
#[verifier::external_body]
fn str_contains(s: &str, t: &str) -> (r: bool)
    ensures
        r == contains_seq(s@, t@),
{
    s.contains(t)
}

/// Whether an item with this title is kept under `terms` (case-sensitive
/// substring match; an item without a title is always kept).
pub fn keeps_title(title: &Option<String>, terms: &Vec<String>) -> (r: bool)
    ensures
        r == title_passes(opt_view(*title), terms_view(terms@)),
{
    match title {
        Option::None => true,
        Option::Some(t) => {
            let mut k: usize = 0;
            while k < terms.len()
                invariant
                    k <= terms.len(),
                    opt_view(*title) == Option::Some(t@),
                    forall|j: int| 0 <= j < k ==> !contains_seq(t@, #[trigger] terms@[j]@),
                decreases terms.len() - k,
            {
                if str_contains(t.as_str(), terms[k].as_str()) {
                    assert(terms_view(terms@)[k as int] == terms@[k as int]@);
                    assert(contains_seq(t@, terms_view(terms@)[k as int]));
                    assert(title_blocked(t@, terms_view(terms@)));
                    return false;
                }
                k = k + 1;
            }
            assert forall|j: int| 0 <= j < terms_view(terms@).len() implies !contains_seq(
                t@,
                #[trigger] terms_view(terms@)[j],
            ) by {
                assert(terms_view(terms@)[j] == terms@[j]@);
            }
            true
        },
    }
}

/// The items of `items` that survive `terms`, in their original order.
pub open spec fn kept(items: Seq<FeedItem>, terms: Seq<Seq<char>>) -> Seq<FeedItem>
    decreases items.len(),
{
    if items.len() == 0 {
        Seq::empty()
    } else {
        let rest = kept(items.drop_last(), terms);
        if title_passes(items.last().title_view(), terms) {
            rest.push(items.last())
        } else {
            rest
        }
    }
}

/// The RSS items of `items` that survive `terms`, in their original order.
pub open spec fn kept_entries(items: Seq<rss::Item>, terms: Seq<Seq<char>>) -> Seq<rss::Item>
    decreases items.len(),
{
    if items.len() == 0 {
        Seq::empty()
    } else {
        let rest = kept_entries(items.drop_last(), terms);
        if title_passes(rss_title(items.last()), terms) {
            rest.push(items.last())
        } else {
            rest
        }
    }
}

/// Removes from `items` every item whose title contains one of `terms`,
/// keeping the order of the others.
pub fn retain_unblocked(items: &mut Vec<FeedItem>, terms: &Vec<String>)
    ensures
        final(items)@ == kept(old(items)@, terms_view(terms@)),
{
    let ghost orig = items@;
    let ghost tv = terms_view(terms@);
    let mut i: usize = 0;
    let ghost mut j: int = 0;
    while i < items.len()
        invariant
            0 <= j <= orig.len(),
            i == kept(orig.subrange(0, j), tv).len(),
            items@ == kept(orig.subrange(0, j), tv) + orig.subrange(j, orig.len() as int),
            tv == terms_view(terms@),
        decreases items.len() - i,
    {
        proof {
            if j == orig.len() {
                assert(items@.len() == i);
            }
        }
        assert(items@[i as int] == orig[j]);
        assert(orig.subrange(0, j + 1).drop_last() == orig.subrange(0, j));
        assert(orig.subrange(0, j + 1).last() == orig[j]);
        if items[i].keeps(terms) {
            i = i + 1;
        } else {
            items.remove(i);
        }
        proof {
            j = j + 1;
        }
        assert(items@ =~= kept(orig.subrange(0, j), tv) + orig.subrange(j, orig.len() as int));
    }
    proof {
        if j < orig.len() {
            assert(items@.len() > i);
        }
    }
    assert(orig.subrange(0, j) == orig);
    assert(items@ =~= kept(orig, tv));
}

} // verus!
