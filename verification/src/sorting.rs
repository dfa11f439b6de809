//! Sorting lists of names in lexicographic order.

use vstd::prelude::*;
use vstd::relations::*;
use crate::text::{Comparison, lex_compare, lex_le, lex_lt, lemma_lex_le_total, lemma_lex_trichotomy, lemma_lex_irreflexive, names, lemma_names_push};

verus! {

broadcast use vstd::seq_lib::group_to_multiset_ensures;

/// The non-strict lexicographic order as a relation.
pub open spec fn lex_order() -> spec_fn(Seq<char>, Seq<char>) -> bool {
    |a: Seq<char>, b: Seq<char>| lex_le(a, b)
}

/// `lex_order` is a total order.
pub proof fn lemma_lex_order_total()
    ensures
        total_ordering(lex_order()),
{
    let r = lex_order();
    assert(reflexive(r)) by {
        assert forall|x: Seq<char>| #[trigger] r(x, x) by {
            lemma_lex_le_total(x, x, x);
        }
    }
    assert(antisymmetric(r)) by {
        assert forall|x: Seq<char>, y: Seq<char>| #[trigger] r(x, y) && #[trigger] r(y, x) implies x
            == y by {
            lemma_lex_le_total(x, y, x);
        }
    }
    assert(transitive(r)) by {
        assert forall|x: Seq<char>, y: Seq<char>, z: Seq<char>| #[trigger] r(x, y) && #[trigger] r(
            y,
            z,
        ) implies r(x, z) by {
            lemma_lex_le_total(x, y, z);
        }
    }
    assert(strongly_connected(r)) by {
        assert forall|x: Seq<char>, y: Seq<char>| #[trigger] r(x, y) || #[trigger] r(y, x) by {
            lemma_lex_le_total(x, y, x);
        }
    }
}

/// The names in lexicographic order.
pub open spec fn sorted_names(s: Seq<Seq<char>>) -> Seq<Seq<char>> {
    s.sort_by(lex_order())
}

/// Whether the names are in lexicographic order.
pub open spec fn is_sorted_names(s: Seq<Seq<char>>) -> bool {
    sorted_by(s, lex_order())
}

/// A sorted sequence with the same elements as `s` is `sorted_names(s)`.
pub proof fn lemma_sorted_is_sort(s: Seq<Seq<char>>, t: Seq<Seq<char>>)
    requires
        is_sorted_names(t),
        t.to_multiset() == s.to_multiset(),
    ensures
        t == sorted_names(s),
{
    lemma_lex_order_total();
    s.lemma_sort_by_ensures(lex_order());
    vstd::seq_lib::lemma_sorted_unique(t, sorted_names(s), lex_order());
}

pub proof fn lemma_names_insert(v: Seq<String>, p: int, x: String)
    requires
        0 <= p <= v.len(),
    ensures
        names(v.insert(p, x)) == names(v).insert(p, x@),
{
    v.insert_ensures(p, x);
    names(v).insert_ensures(p, x@);
    assert(names(v.insert(p, x)) =~= names(v).insert(p, x@));
}

pub proof fn lemma_names_remove(v: Seq<String>, i: int)
    requires
        0 <= i < v.len(),
    ensures
        names(v.remove(i)) == names(v).remove(i),
{
    v.remove_ensures(i);
    names(v).remove_ensures(i);
    assert(names(v.remove(i)) =~= names(v).remove(i));
}

/// Inserts `x` into a sorted list at its place in lexicographic order,
/// after every name that is not greater than it.
pub fn insert_sorted(v: &mut Vec<String>, x: String)
    requires
        is_sorted_names(names(old(v)@)),
    ensures
        is_sorted_names(names(final(v)@)),
        names(final(v)@).to_multiset() == names(old(v)@).to_multiset().insert(x@),
        exists|p: int| 0 <= p <= old(v)@.len() && final(v)@ == old(v)@.insert(p, x),
{
    let mut p: usize = 0;
    while p < v.len() && lex_compare(v[p].as_str(), x.as_str()) != Comparison::Greater
        invariant
            p <= v.len(),
            forall|j: int| 0 <= j < p ==> lex_le(#[trigger] v@[j]@, x@),
        decreases v.len() - p,
    {
        proof {
            lemma_lex_trichotomy(v@[p as int]@, x@);
            lemma_lex_irreflexive(x@);
        }
        p = p + 1;
    }
    let ghost old_v = v@;
    proof {
        if p < v.len() {
            lemma_lex_trichotomy(v@[p as int]@, x@);
            lemma_lex_irreflexive(x@);
            assert(lex_lt(x@, v@[p as int]@));
        }
        lemma_names_insert(old_v, p as int, x);
        old_v.insert_ensures(p as int, x);
        names(old_v).insert_ensures(p as int, x@);
    }
    v.insert(p, x);
    proof {
        let n = names(v@);
        let o = names(old_v);
        assert(n == o.insert(p as int, x@));
        assert forall|i: int, j: int| 0 <= i < j < n.len() implies #[trigger] lex_order()(
            n[i],
            n[j],
        ) by {
            if j < p {
                assert(lex_order()(o[i], o[j]));
            } else if j == p {
                assert(lex_le(o[i], x@));
            } else if i < p {
                assert(lex_le(o[i], x@));
                assert(lex_lt(x@, o[p as int]));
                if p < j - 1 {
                    assert(lex_order()(o[p as int], o[j - 1]));
                }
                lemma_lex_le_total(o[i], x@, o[p as int]);
                lemma_lex_le_total(x@, o[p as int], o[j - 1]);
                lemma_lex_le_total(o[i], o[p as int], o[j - 1]);
                lemma_lex_trichotomy(o[i], o[j - 1]);
            } else if i == p {
                assert(lex_lt(x@, o[p as int]));
                if p < j - 1 {
                    assert(lex_order()(o[p as int], o[j - 1]));
                }
                lemma_lex_le_total(x@, o[p as int], o[j - 1]);
                lemma_lex_trichotomy(x@, o[j - 1]);
            } else {
                assert(lex_order()(o[i - 1], o[j - 1]));
            }
        }
        assert(o.insert(p as int, x@).to_multiset() == o.to_multiset().insert(x@));
    }
}

/// The names in lexicographic order, as a vector's `sort` leaves them.
pub fn sort_names(v: Vec<String>) -> (res: Vec<String>)
    ensures
        names(res@) == sorted_names(names(v@)),
{
    let mut res: Vec<String> = Vec::new();
    let mut i: usize = 0;
    while i < v.len()
        invariant
            i <= v.len(),
            is_sorted_names(names(res@)),
            names(res@).to_multiset() == names(v@.take(i as int)).to_multiset(),
        decreases v.len() - i,
    {
        let x = v[i].clone();
        insert_sorted(&mut res, x);
        proof {
            assert(v@.take(i + 1) == v@.take(i as int).push(v@[i as int]));
            lemma_names_push(v@.take(i as int), v@[i as int]);
        }
        i = i + 1;
    }
    proof {
        assert(v@.take(i as int) =~= v@);
        lemma_sorted_is_sort(names(v@), names(res@));
    }
    res
}

} // verus!
