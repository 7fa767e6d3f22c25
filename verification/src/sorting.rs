//! A total order on texts and the sorted form of a list of texts.

use crate::text::chars_of;
use vstd::prelude::*;
use vstd::relations::{sorted_by, total_ordering};
use vstd::seq_lib::lemma_sorted_unique;

verus! {

/// Dictionary order by code point: `a` comes before `b` or equals it.
pub open spec fn text_le(a: Seq<char>, b: Seq<char>) -> bool
    decreases a.len(),
{
    if a.len() == 0 {
        true
    } else if b.len() == 0 {
        false
    } else if a.first() != b.first() {
        (a.first() as int) < (b.first() as int)
    } else {
        text_le(a.drop_first(), b.drop_first())
    }
}

/// The order of `text_le` as a relation.
pub open spec fn text_order() -> spec_fn(Seq<char>, Seq<char>) -> bool {
    |a: Seq<char>, b: Seq<char>| text_le(a, b)
}

proof fn lemma_le_reflexive(a: Seq<char>)
    ensures
        text_le(a, a),
    decreases a.len(),
{
    if a.len() > 0 {
        lemma_le_reflexive(a.drop_first());
    }
}

proof fn lemma_le_antisymmetric(a: Seq<char>, b: Seq<char>)
    requires
        text_le(a, b),
        text_le(b, a),
    ensures
        a == b,
    decreases a.len(),
{
    if a.len() == 0 || b.len() == 0 {
        assert(a =~= b);
    } else {
        lemma_le_antisymmetric(a.drop_first(), b.drop_first());
        assert(a =~= seq![a.first()] + a.drop_first());
        assert(b =~= seq![b.first()] + b.drop_first());
    }
}

proof fn lemma_le_transitive(a: Seq<char>, b: Seq<char>, c: Seq<char>)
    requires
        text_le(a, b),
        text_le(b, c),
    ensures
        text_le(a, c),
    decreases a.len(),
{
    if a.len() > 0 && b.len() > 0 && c.len() > 0 {
        if a.first() == b.first() && b.first() == c.first() {
            lemma_le_transitive(a.drop_first(), b.drop_first(), c.drop_first());
        }
    }
}

proof fn lemma_le_connected(a: Seq<char>, b: Seq<char>)
    ensures
        text_le(a, b) || text_le(b, a),
    decreases a.len(),
{
    if a.len() > 0 && b.len() > 0 {
        if a.first() == b.first() {
            lemma_le_connected(a.drop_first(), b.drop_first());
        }
    }
}

/// `text_le` is a total order.
pub proof fn lemma_text_order_total()
    ensures
        total_ordering(text_order()),
{
    let r = text_order();
    assert forall|x: Seq<char>| #[trigger] r(x, x) by {
        lemma_le_reflexive(x);
    }
    assert forall|x: Seq<char>, y: Seq<char>| #[trigger] r(x, y) && #[trigger] r(y, x) implies x
        == y by {
        lemma_le_antisymmetric(x, y);
    }
    assert forall|x: Seq<char>, y: Seq<char>, z: Seq<char>| #[trigger]
        r(x, y) && #[trigger] r(y, z) implies r(x, z) by {
        lemma_le_transitive(x, y, z);
    }
    assert forall|x: Seq<char>, y: Seq<char>| #[trigger] r(x, y) || #[trigger] r(y, x) by {
        lemma_le_connected(x, y);
    }
}

/// Tells whether `a` comes before `b` in dictionary order, or equals it.
pub fn precedes(a: &str, b: &str) -> (le: bool)
    ensures
        le == text_le(a@, b@),
{
    let x = chars_of(a);
    let y = chars_of(b);
    let mut i: usize = 0;
    assert(x@.skip(0) =~= x@ && y@.skip(0) =~= y@);
    while i < x.len() && i < y.len()
        invariant
            i <= x.len(),
            i <= y.len(),
            x@ == a@,
            y@ == b@,
            text_le(x@, y@) == text_le(x@.skip(i as int), y@.skip(i as int)),
        decreases x.len() - i,
    {
        proof {
            assert(x@.skip(i as int).first() == x@[i as int]);
            assert(y@.skip(i as int).first() == y@[i as int]);
            assert(x@.skip(i as int).drop_first() =~= x@.skip(i + 1));
            assert(y@.skip(i as int).drop_first() =~= y@.skip(i + 1));
        }
        let cx: char = x[i];
        let cy: char = y[i];
        if cx != cy {
            return cx < cy;
        }
        i += 1;
    }
    i == x.len()
}

/// The items of `items` in dictionary order.
pub open spec fn sorted_texts(items: Seq<Seq<char>>) -> Seq<Seq<char>> {
    items.sort_by(text_order())
}

/// Lists that hold the same items equally often have the same sorted form.
pub proof fn lemma_sorted_texts_of_permutation(a: Seq<Seq<char>>, b: Seq<Seq<char>>)
    requires
        a.to_multiset() == b.to_multiset(),
    ensures
        sorted_texts(a) == sorted_texts(b),
{
    lemma_text_order_total();
    a.lemma_sort_by_ensures(text_order());
    b.lemma_sort_by_ensures(text_order());
    lemma_sorted_unique(sorted_texts(a), sorted_texts(b), text_order());
}

/// Sorts a list of strings in dictionary order; equal strings stay, as often
/// as they occur.
pub fn sort_strings(items: &Vec<String>) -> (sorted: Vec<String>)
    ensures
        sorted.deep_view() == sorted_texts(items.deep_view()),
{
    let mut sorted: Vec<String> = Vec::new();
    let mut i: usize = 0;
    proof {
        assert(items.deep_view().take(0) =~= Seq::<Seq<char>>::empty());
        assert(sorted.deep_view() =~= Seq::<Seq<char>>::empty());
    }
    while i < items.len()
        invariant
            i <= items.len(),
            sorted_by(sorted.deep_view(), text_order()),
            sorted.deep_view().to_multiset() == items.deep_view().take(i as int).to_multiset(),
        decreases items.len() - i,
    {
        let item = items[i].clone();
        let mut at: usize = 0;
        while at < sorted.len() && precedes(sorted[at].as_str(), item.as_str())
            invariant
                at <= sorted.len(),
                forall|k: int| 0 <= k < at ==> text_le(#[trigger] sorted@[k]@, item@),
            decreases sorted.len() - at,
        {
            at += 1;
        }
        let ghost before = sorted.deep_view();
        sorted.insert(at, item);
        proof {
            let after = sorted.deep_view();
            assert(after =~= before.insert(at as int, item@));
            assert(items.deep_view().take(i + 1) =~= items.deep_view().take(i as int).push(item@));
            vstd::seq_lib::to_multiset_insert(before, at as int, item@);
            vstd::seq_lib::to_multiset_build(items.deep_view().take(i as int), item@);
            assert forall|p: int, q: int| 0 <= p < q < after.len() implies #[trigger] text_order()(
                after[p],
                after[q],
            ) by {
                if q == at {
                    assert(text_le(sorted@[p]@, item@));
                } else if p == at {
                    // The scan stopped at `at`: the item there does not precede `item`.
                    assert(at < before.len());
                    assert(!text_le(before[at as int], item@));
                    lemma_le_connected(before[at as int], item@);
                    if q > at + 1 {
                        assert(text_order()(before[at as int], before[q - 1]));
                        lemma_le_transitive(item@, before[at as int], before[q - 1]);
                    }
                } else {
                    let p0 = if p < at { p } else { p - 1 };
                    let q0 = if q < at { q } else { q - 1 };
                    assert(text_order()(before[p0], before[q0]));
                }
            }
        }
        i += 1;
    }
    proof {
        assert(items.deep_view().take(items.len() as int) =~= items.deep_view());
        lemma_text_order_total();
        items.deep_view().lemma_sort_by_ensures(text_order());
        lemma_sorted_unique(sorted.deep_view(), sorted_texts(items.deep_view()), text_order());
    }
    sorted
}

} // verus!

