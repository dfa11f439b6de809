//! Order book entries: their order on screen and the order of the table
//! columns.

use vstd::prelude::*;
use crate::text::{
    Comparison, lex_compare, lex_comparison, has_char, lemma_lex_trichotomy,
    lemma_lex_irreflexive, lex_lt,
};

verus! {

broadcast use {vstd::seq_lib::group_to_multiset_ensures, vstd::seq_lib::group_seq_lib_default};

/// One offer of an order book. The price is kept as the daemon sent it
/// (a decimal string) together with `price_key`, an integer whose order is
/// the numeric order of the prices.
pub struct Order {
    pub price: String,
    pub maxvolume: String,
    pub price_key: u64,
}

/// The side of the order book that an offer belongs to.
#[derive(Clone, Copy, Debug, PartialEq, Eq, Structural)]
pub enum Side {
    Ask,
    Bid,
}

/// The columns of the order book tables.
#[derive(Clone, Copy, Debug, PartialEq, Eq, Hash, Structural)]
pub enum BasicColumn {
    Price,
    Maxvolume,
}

/// Whether `a` may stand before `b` in a list ordered by price: ascending
/// prices for asks, descending for bids.
pub open spec fn precedes(a: u64, b: u64, side: Side) -> bool {
    match side {
        Side::Ask => a <= b,
        Side::Bid => a >= b,
    }
}

/// The list is ordered by price for the given side.
pub open spec fn price_ordered(s: Seq<Order>, side: Side) -> bool {
    forall|i: int, j: int|
        0 <= i < j < s.len() ==> precedes(#[trigger] s[i].price_key, #[trigger] s[j].price_key, side)
}

/// The offers of `s` with the given price, in the order of `s`.
pub open spec fn at_price(s: Seq<Order>, key: u64) -> Seq<Order> {
    s.filter(|o: Order| o.price_key == key)
}

/// `out` holds the offers of `inp` ordered by price; offers of one price keep
/// the order that they had in `inp` (a stable sort).
pub open spec fn stable_price_sort(inp: Seq<Order>, out: Seq<Order>, side: Side) -> bool {
    &&& price_ordered(out, side)
    &&& forall|key: u64| #[trigger] at_price(out, key) == at_price(inp, key)
}

proof fn lemma_at_price_insert(s: Seq<Order>, p: int, e: Order, side: Side)
    requires
        0 <= p <= s.len(),
        forall|j: int| p <= j < s.len() ==> !precedes(#[trigger] s[j].price_key, e.price_key, side),
    ensures
        forall|key: u64| #[trigger] at_price(s.insert(p, e), key) == if key == e.price_key {
            at_price(s, key).push(e)
        } else {
            at_price(s, key)
        },
{
    assert forall|key: u64| #[trigger] at_price(s.insert(p, e), key) == if key == e.price_key {
        at_price(s, key).push(e)
    } else {
        at_price(s, key)
    } by {
        let pred = |o: Order| o.price_key == key;
        let left = s.subrange(0, p);
        let right = s.subrange(p, s.len() as int);
        assert(s =~= left + right);
        assert(s.insert(p, e) =~= left.push(e) + right);
        assert(at_price(s, key) == left.filter(pred) + right.filter(pred));
        assert(at_price(s.insert(p, e), key) == left.push(e).filter(pred) + right.filter(pred));
        left.lemma_filter_push(e, pred);
        if key == e.price_key {
            assert forall|j: int| 0 <= j < right.len() implies !pred(#[trigger] right[j]) by {
                assert(right[j] == s[p + j]);
            }
            right.lemma_all_neg_filter_empty(pred);
            assert(right.filter(pred) =~= Seq::<Order>::empty());
            assert(left.filter(pred) + right.filter(pred) =~= left.filter(pred));
            assert(left.filter(pred).push(e) + right.filter(pred) =~= left.filter(pred).push(e));
        }
    }
}

/// Whether a price key may stand before another on the given side.
fn key_precedes(a: u64, b: u64, side: Side) -> (res: bool)
    ensures
        res == precedes(a, b, side),
{
    match side {
        Side::Ask => a <= b,
        Side::Bid => a >= b,
    }
}

/// The offers ordered by price (ascending for asks, descending for bids),
/// offers of one price in their original order.
pub fn sort_by_price(orders: Vec<Order>, side: Side) -> (res: Vec<Order>)
    ensures
        stable_price_sort(orders@, res@, side),
        res@.to_multiset() == orders@.to_multiset(),
{
    let mut rest = orders;
    let ghost inp = rest@;
    let ghost mut taken: Seq<Order> = Seq::empty();
    let mut res: Vec<Order> = Vec::new();
    let n = rest.len();
    let mut i: usize = 0;
    assert(inp.skip(0) =~= inp);
    while i < n
        invariant
            i <= n,
            n == inp.len(),
            rest@ == inp.skip(i as int),
            taken == inp.take(i as int),
            price_ordered(res@, side),
            forall|key: u64| #[trigger] at_price(res@, key) == at_price(taken, key),
            res@.to_multiset() == taken.to_multiset(),
        decreases n - i,
    {
        let e = rest.remove(0);
        assert(e == inp[i as int]);
        assert(inp.skip(i as int).remove(0) =~= inp.skip(i + 1));
        let mut p: usize = 0;
        while p < res.len() && key_precedes(res[p].price_key, e.price_key, side)
            invariant
                p <= res.len(),
                forall|j: int| 0 <= j < p ==> precedes(#[trigger] res@[j].price_key, e.price_key, side),
            decreases res.len() - p,
        {
            p = p + 1;
        }
        proof {
            let s = res@;
            if p < s.len() {
                assert(!precedes(s[p as int].price_key, e.price_key, side));
            }
            assert forall|j: int| p <= j < s.len() implies !precedes(
                #[trigger] s[j].price_key,
                e.price_key,
                side,
            ) by {
                if j > p {
                    assert(precedes(s[p as int].price_key, s[j].price_key, side));
                }
            }
            lemma_at_price_insert(s, p as int, e, side);
            s.insert_ensures(p as int, e);
            assert(inp.take(i + 1) =~= inp.take(i as int).push(e));
            assert forall|key: u64| #[trigger] at_price(taken.push(e), key) == if key == e.price_key {
                at_price(taken, key).push(e)
            } else {
                at_price(taken, key)
            } by {
                taken.lemma_filter_push(e, |o: Order| o.price_key == key);
            }
            taken = taken.push(e);
        }
        let ghost before = res@;
        res.insert(p, e);
        proof {
            let s = res@;
            assert forall|a: int, b: int| 0 <= a < b < s.len() implies precedes(
                #[trigger] s[a].price_key,
                #[trigger] s[b].price_key,
                side,
            ) by {
                if a < p && b > p {
                    assert(precedes(s[a].price_key, e.price_key, side));
                    assert(s[b] == before[b - 1]);
                    assert(!precedes(before[b - 1].price_key, e.price_key, side));
                } else if a == p && b > p {
                    assert(s[b] == before[b - 1]);
                    assert(!precedes(before[b - 1].price_key, e.price_key, side));
                } else if a > p {
                    assert(s[a] == before[a - 1]);
                    assert(s[b] == before[b - 1]);
                } else if b < p {
                } else {
                    assert(precedes(s[a].price_key, e.price_key, side));
                }
            }
        }
        i = i + 1;
    }
    proof {
        assert(inp.take(n as int) =~= inp);
    }
    res
}

/// An offer of `s` with the given price, if any, is found in its filter.
proof fn lemma_has_price(s: Seq<Order>, i: int)
    requires
        0 <= i < s.len(),
    ensures
        at_price(s, s[i].price_key).len() > 0,
{
    let k = s[i].price_key;
    s.lemma_filter_contains(|o: Order| o.price_key == k, i);
}

/// An offer in the filter of `s` by price is an offer of `s` with that price.
proof fn lemma_from_price(s: Seq<Order>, key: u64)
    requires
        at_price(s, key).len() > 0,
    ensures
        exists|j: int| 0 <= j < s.len() && s[j].price_key == key,
{
    let pred = |o: Order| o.price_key == key;
    let f = at_price(s, key);
    s.lemma_filter_pred(pred, 0);
    assert(f.contains(f[0]));
    s.lemma_filter_contains_rev(pred, f[0]);
}

proof fn lemma_at_price_drop_first(s: Seq<Order>)
    requires
        s.len() > 0,
    ensures
        forall|key: u64| #[trigger] at_price(s, key) == if key == s[0].price_key {
            seq![s[0]] + at_price(s.drop_first(), key)
        } else {
            at_price(s.drop_first(), key)
        },
{
    assert(s =~= seq![s[0]] + s.drop_first());
    assert forall|key: u64| #[trigger] at_price(s, key) == if key == s[0].price_key {
        seq![s[0]] + at_price(s.drop_first(), key)
    } else {
        at_price(s.drop_first(), key)
    } by {
        s.drop_first().lemma_filter_prepend(s[0], |o: Order| o.price_key == key);
        assert(Seq::<Order>::empty() + at_price(s.drop_first(), key) =~= at_price(
            s.drop_first(),
            key,
        ));
    }
}

/// Two lists that are ordered by price for one side and hold, price by
/// price, the same offers in the same order are the same list.
pub proof fn lemma_price_order_unique(a: Seq<Order>, b: Seq<Order>, side: Side)
    requires
        price_ordered(a, side),
        price_ordered(b, side),
        forall|key: u64| #[trigger] at_price(a, key) == at_price(b, key),
    ensures
        a == b,
    decreases a.len(),
{
    if a.len() == 0 {
        if b.len() > 0 {
            lemma_has_price(b, 0);
            assert(at_price(a, b[0].price_key) =~= Seq::<Order>::empty());
        }
        assert(a =~= b);
    } else {
        lemma_has_price(a, 0);
        if b.len() == 0 {
            assert(at_price(b, a[0].price_key) =~= Seq::<Order>::empty());
        }
        lemma_has_price(b, 0);
        let ka = a[0].price_key;
        let kb = b[0].price_key;
        assert(at_price(b, ka) == at_price(a, ka));
        lemma_from_price(b, ka);
        let j = choose|j: int| 0 <= j < b.len() && b[j].price_key == ka;
        if j > 0 {
            assert(precedes(b[0].price_key, b[j].price_key, side));
        }
        assert(at_price(a, kb) == at_price(b, kb));
        lemma_from_price(a, kb);
        let m = choose|m: int| 0 <= m < a.len() && a[m].price_key == kb;
        if m > 0 {
            assert(precedes(a[0].price_key, a[m].price_key, side));
        }
        assert(ka == kb);
        lemma_at_price_drop_first(a);
        lemma_at_price_drop_first(b);
        assert(at_price(a, ka) == seq![a[0]] + at_price(a.drop_first(), ka));
        assert(at_price(b, ka) == seq![b[0]] + at_price(b.drop_first(), ka));
        assert((seq![a[0]] + at_price(a.drop_first(), ka))[0] == a[0]);
        assert((seq![b[0]] + at_price(b.drop_first(), ka))[0] == b[0]);
        assert(a[0] == b[0]);
        assert forall|key: u64| #[trigger] at_price(a.drop_first(), key) == at_price(
            b.drop_first(),
            key,
        ) by {
            assert(at_price(a, key) == at_price(b, key));
            if key == ka {
                assert(at_price(a.drop_first(), key) =~= at_price(a, key).drop_first());
                assert(at_price(b.drop_first(), key) =~= at_price(b, key).drop_first());
            }
        }
        lemma_price_order_unique(a.drop_first(), b.drop_first(), side);
        assert(a.len() == b.len());
        assert forall|i: int| 0 <= i < a.len() implies a[i] == b[i] by {
            if i > 0 {
                assert(a[i] == a.drop_first()[i - 1]);
                assert(b[i] == b.drop_first()[i - 1]);
            }
        }
        assert(a =~= b);
    }
}

/// Sorting a list that is already ordered by price leaves it as it is.
pub proof fn lemma_sorting_ordered_list_keeps_it(inp: Seq<Order>, out: Seq<Order>, side: Side)
    requires
        price_ordered(inp, side),
        stable_price_sort(inp, out, side),
    ensures
        out == inp,
{
    lemma_price_order_unique(out, inp, side);
}

/// The asks of an order book, lowest price first.
pub fn sort_asks(asks: Vec<Order>) -> (res: Vec<Order>)
    ensures
        stable_price_sort(asks@, res@, Side::Ask),
        res@.to_multiset() == asks@.to_multiset(),
{
    sort_by_price(asks, Side::Ask)
}

/// The bids of an order book, highest price first.
pub fn sort_bids(bids: Vec<Order>) -> (res: Vec<Order>)
    ensures
        stable_price_sort(bids@, res@, Side::Bid),
        res@.to_multiset() == bids@.to_multiset(),
{
    sort_by_price(bids, Side::Bid)
}

/// The comparison of two integers.
pub open spec fn key_comparison(a: u64, b: u64) -> Comparison {
    if a < b {
        Comparison::Less
    } else if a == b {
        Comparison::Equal
    } else {
        Comparison::Greater
    }
}

/// How a table orders two offers of one side by a column: asks by
/// ascending price, bids by descending price, both by the volume text in
/// lexicographic order.
pub open spec fn order_comparison(a: Order, b: Order, column: BasicColumn, side: Side) -> Comparison {
    match column {
        BasicColumn::Price => match side {
            Side::Ask => key_comparison(a.price_key, b.price_key),
            Side::Bid => key_comparison(b.price_key, a.price_key),
        },
        BasicColumn::Maxvolume => lex_comparison(a.maxvolume@, b.maxvolume@),
    }
}

fn compare_keys(a: u64, b: u64) -> (res: Comparison)
    ensures
        res == key_comparison(a, b),
{
    if a < b {
        Comparison::Less
    } else if a == b {
        Comparison::Equal
    } else {
        Comparison::Greater
    }
}

/// Compares two offers of one side of the book by a table column.
pub fn compare_orders(a: &Order, b: &Order, column: BasicColumn, side: Side) -> (res: Comparison)
    ensures
        res == order_comparison(*a, *b, column, side),
{
    match column {
        BasicColumn::Price => match side {
            Side::Ask => compare_keys(a.price_key, b.price_key),
            Side::Bid => compare_keys(b.price_key, a.price_key),
        },
        BasicColumn::Maxvolume => lex_compare(a.maxvolume.as_str(), b.maxvolume.as_str()),
    }
}

/// The table order is antisymmetric: `a` comes before `b` exactly when `b`
/// comes after `a`, and ties are mutual.
pub proof fn lemma_order_comparison_antisymmetric(a: Order, b: Order, column: BasicColumn, side: Side)
    ensures
        (order_comparison(a, b, column, side) == Comparison::Less) <==> (order_comparison(
            b,
            a,
            column,
            side,
        ) == Comparison::Greater),
        (order_comparison(a, b, column, side) == Comparison::Equal) <==> (order_comparison(
            b,
            a,
            column,
            side,
        ) == Comparison::Equal),
{
    lemma_lex_trichotomy(a.maxvolume@, b.maxvolume@);
    lemma_lex_irreflexive(a.maxvolume@);
}

/// By the volume column two offers compare as their volume texts do in
/// lexicographic order, whatever their prices or side; by the price column
/// they compare by price alone (rising for asks, falling for bids), whatever
/// their volumes.
pub proof fn lemma_columns_compare_their_own_field(
    a: Order,
    b: Order,
    a2: Order,
    b2: Order,
    side: Side,
    side2: Side,
)
    ensures
        (order_comparison(a, b, BasicColumn::Maxvolume, side) == Comparison::Less) == lex_lt(
            a.maxvolume@,
            b.maxvolume@,
        ),
        (order_comparison(a, b, BasicColumn::Maxvolume, side) == Comparison::Equal) == (a.maxvolume@
            == b.maxvolume@),
        (order_comparison(a, b, BasicColumn::Maxvolume, side) == Comparison::Greater) == lex_lt(
            b.maxvolume@,
            a.maxvolume@,
        ),
        a.maxvolume@ == a2.maxvolume@ && b.maxvolume@ == b2.maxvolume@ ==> order_comparison(
            a,
            b,
            BasicColumn::Maxvolume,
            side,
        ) == order_comparison(a2, b2, BasicColumn::Maxvolume, side2),
        (order_comparison(a, b, BasicColumn::Price, Side::Ask) == Comparison::Less) == (a.price_key
            < b.price_key),
        (order_comparison(a, b, BasicColumn::Price, Side::Bid) == Comparison::Less) == (a.price_key
            > b.price_key),
        (order_comparison(a, b, BasicColumn::Price, side) == Comparison::Equal) == (a.price_key
            == b.price_key),
{
    lemma_lex_trichotomy(a.maxvolume@, b.maxvolume@);
    lemma_lex_irreflexive(a.maxvolume@);
}

/// Whether an order book can be asked for: both coins are chosen, that is,
/// neither button label is empty or still holds a `<`.
pub open spec fn pair_is_ready(base: Seq<char>, rel: Seq<char>) -> bool {
    &&& base.len() > 0
    &&& rel.len() > 0
    &&& !rel.contains('<')
    &&& !base.contains('<')
}

/// Decides whether the labels of the two coin buttons name a pair whose
/// order book can be fetched.
pub fn pair_ready(base: &str, rel: &str) -> (res: bool)
    ensures
        res == pair_is_ready(base@, rel@),
{
    !base.is_empty() && !rel.is_empty() && !has_char(rel, '<') && !has_char(base, '<')
}

} // verus!
