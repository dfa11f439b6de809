//! The coin selection dialog: coins offered by the daemon on one side,
//! coins chosen for trading on the other, moved between them one at a time.

use vstd::prelude::*;
use crate::text::{names, contains_name, copy_strings, lemma_names_push};
use crate::sorting::{
    sorted_names, is_sorted_names, insert_sorted, sort_names, lemma_names_remove, lemma_sorted_is_sort, lex_order,
};

verus! {

broadcast use vstd::seq_lib::group_to_multiset_ensures;

/// The fewest coins that a selection must hold to be saved.
pub const MIN_SELECTED_COINS: usize = 2;

/// The two lists of the coin selection dialog.
pub struct CoinSelection {
    available: Vec<String>,
    selected: Vec<String>,
}

/// What applying the selection leads to.
pub enum ApplyOutcome {
    /// Fewer than two coins are selected: the user is told so and the dialog stays.
    NeedMoreCoins,
    /// The selected coins, to be written to the coins file; the dialog closes.
    Save(Vec<String>),
}

/// The coins the daemon offers that the coins file does not already hold.
pub open spec fn offered_coins(mm2_coins: Seq<Seq<char>>, chosen: Seq<Seq<char>>) -> Seq<
    Seq<char>,
> {
    mm2_coins.filter(|c: Seq<char>| !chosen.contains(c))
}

/// The lists after the available coin at `index` is moved to the selection.
pub open spec fn after_add(
    lists: (Seq<Seq<char>>, Seq<Seq<char>>),
    index: int,
) -> (Seq<Seq<char>>, Seq<Seq<char>>) {
    (lists.0.remove(index), lists.1.push(lists.0[index]))
}

/// The lists after the selected coin at `index` is moved back to the
/// available coins, which are then sorted again.
pub open spec fn after_remove(
    lists: (Seq<Seq<char>>, Seq<Seq<char>>),
    index: int,
) -> (Seq<Seq<char>>, Seq<Seq<char>>) {
    (sorted_names(lists.0.push(lists.1[index])), lists.1.remove(index))
}

impl View for CoinSelection {
    /// The available coins and the selected coins, in the order shown.
    type V = (Seq<Seq<char>>, Seq<Seq<char>>);

    closed spec fn view(&self) -> (Seq<Seq<char>>, Seq<Seq<char>>) {
        (names(self.available@), names(self.selected@))
    }
}

impl CoinSelection {
    #[verifier::type_invariant]
    spec fn available_sorted(self) -> bool {
        is_sorted_names(names(self.available@))
    }

    /// Builds the dialog's lists: the daemon's coins that are not in the
    /// coins file, sorted, and the coins file's coins, sorted.
    pub fn new(mm2_coins: Vec<String>, coins_file_coins: Vec<String>) -> (res: Self)
        ensures
            res@.0 == sorted_names(offered_coins(names(mm2_coins@), names(coins_file_coins@))),
            res@.1 == sorted_names(names(coins_file_coins@)),
            is_sorted_names(res@.0),
    {
        let ghost chosen = names(coins_file_coins@);
        let ghost pred = |c: Seq<char>| !chosen.contains(c);
        let mut offered: Vec<String> = Vec::new();
        let mut i: usize = 0;
        while i < mm2_coins.len()
            invariant
                i <= mm2_coins.len(),
                chosen == names(coins_file_coins@),
                pred == (|c: Seq<char>| !chosen.contains(c)),
                names(offered@) == names(mm2_coins@.take(i as int)).filter(pred),
            decreases mm2_coins.len() - i,
        {
            let coin = &mm2_coins[i];
            let in_file = contains_name(&coins_file_coins, coin);
            proof {
                assert(mm2_coins@.take(i + 1) == mm2_coins@.take(i as int).push(mm2_coins@[i as int]));
                lemma_names_push(mm2_coins@.take(i as int), mm2_coins@[i as int]);
                names(mm2_coins@.take(i as int)).lemma_filter_push(mm2_coins@[i as int]@, pred);
            }
            if !in_file {
                let c = coin.clone();
                proof {
                    lemma_names_push(offered@, c);
                }
                offered.push(c);
            }
            i = i + 1;
        }
        proof {
            assert(mm2_coins@.take(i as int) =~= mm2_coins@);
        }
        let available = sort_names(offered);
        let selected = sort_names(coins_file_coins);
        proof {
            crate::sorting::lemma_lex_order_total();
            names(offered@).lemma_sort_by_ensures(lex_order());
        }
        CoinSelection { available, selected }
    }

    /// Moves the available coin at `index` to the end of the selection
    /// (submitting an entry of the "Available" list).
    pub fn add_coin(&mut self, index: usize)
        requires
            index < old(self)@.0.len(),
        ensures
            final(self)@ == after_add(old(self)@, index as int),
            is_sorted_names(final(self)@.0),
    {
        proof {
            use_type_invariant(&*self);
        }
        let ghost old_av = self.available@;
        let ghost old_sel = self.selected@;
        proof {
            lemma_names_remove(old_av, index as int);
            names(old_av).remove_ensures(index as int);
        }
        let mut available: Vec<String> = Vec::new();
        std::mem::swap(&mut available, &mut self.available);
        let coin = available.remove(index);
        let mut selected: Vec<String> = Vec::new();
        std::mem::swap(&mut selected, &mut self.selected);
        proof {
            lemma_names_push(old_sel, coin);
        }
        selected.push(coin);
        self.selected = selected;
        self.available = available;
    }

    /// Moves the selected coin at `index` back to the available coins,
    /// which are kept in lexicographic order (submitting an entry of the
    /// "Selected" list).
    pub fn remove_coin(&mut self, index: usize)
        requires
            index < old(self)@.1.len(),
        ensures
            final(self)@ == after_remove(old(self)@, index as int),
            is_sorted_names(final(self)@.0),
    {
        proof {
            use_type_invariant(&*self);
        }
        let ghost old_av = self.available@;
        let ghost old_sel = self.selected@;
        proof {
            lemma_names_remove(old_sel, index as int);
        }
        let mut selected: Vec<String> = Vec::new();
        std::mem::swap(&mut selected, &mut self.selected);
        let coin = selected.remove(index);
        self.selected = selected;
        let mut available: Vec<String> = Vec::new();
        std::mem::swap(&mut available, &mut self.available);
        insert_sorted(&mut available, coin);
        self.available = available;
        proof {
            assert(old_sel[index as int]@ == names(old_sel)[index as int]);
            let pushed = names(old_av).push(coin@);
            assert(pushed.to_multiset() == names(old_av).to_multiset().insert(coin@));
            lemma_sorted_is_sort(pushed, names(self.available@));
        }
    }

    /// The available coins, in the order shown.
    pub fn available_coins(&self) -> (res: Vec<String>)
        ensures
            names(res@) == self@.0,
    {
        copy_strings(&self.available)
    }

    /// The selected coins, in the order shown.
    pub fn selected_coins(&self) -> (res: Vec<String>)
        ensures
            names(res@) == self@.1,
    {
        copy_strings(&self.selected)
    }

    /// What the "Apply" button leads to: at least two selected coins are
    /// saved, in the order shown; fewer are refused.
    pub fn apply(&self) -> (res: ApplyOutcome)
        ensures
            self@.1.len() < MIN_SELECTED_COINS ==> res is NeedMoreCoins,
            self@.1.len() >= MIN_SELECTED_COINS ==> (res matches ApplyOutcome::Save(v) && names(
                v@,
            ) == self@.1),
    {
        if self.selected.len() < MIN_SELECTED_COINS {
            ApplyOutcome::NeedMoreCoins
        } else {
            ApplyOutcome::Save(copy_strings(&self.selected))
        }
    }
}

/// Moving a coin to the selection and then moving that same coin (the last
/// one selected) back leaves both lists as they were, the available coins
/// being in lexicographic order.
pub proof fn lemma_add_then_remove_restores(lists: (Seq<Seq<char>>, Seq<Seq<char>>), index: int)
    requires
        is_sorted_names(lists.0),
        0 <= index < lists.0.len(),
    ensures
        after_remove(after_add(lists, index), lists.1.len() as int) == lists,
{
    let added = after_add(lists, index);
    let back = after_remove(added, lists.1.len() as int);
    let x = lists.0[index];
    assert(added.1[lists.1.len() as int] == x);
    assert(added.1.remove(lists.1.len() as int) =~= lists.1);
    lists.0.remove_ensures(index);
    let pushed = lists.0.remove(index).push(x);
    assert(pushed.to_multiset() == lists.0.remove(index).to_multiset().insert(x));
    assert(lists.0.remove(index).to_multiset() == lists.0.to_multiset().remove(x));
    assert(lists.0.to_multiset().contains(x));
    assert(pushed.to_multiset() =~= lists.0.to_multiset());
    lemma_sorted_is_sort(pushed, lists.0);
}

/// Moving a coin either way keeps the coins of both lists together the same.
pub proof fn lemma_moves_keep_coins(lists: (Seq<Seq<char>>, Seq<Seq<char>>), index: int)
    ensures
        0 <= index < lists.0.len() ==> (after_add(lists, index).0 + after_add(
            lists,
            index,
        ).1).to_multiset() == (lists.0 + lists.1).to_multiset(),
        0 <= index < lists.1.len() ==> (after_remove(lists, index).0 + after_remove(
            lists,
            index,
        ).1).to_multiset() == (lists.0 + lists.1).to_multiset(),
{
    broadcast use vstd::seq_lib::lemma_multiset_commutative;
    broadcast use vstd::multiset::group_multiset_axioms;

    if 0 <= index < lists.0.len() {
        let a = after_add(lists, index);
        let x = lists.0[index];
        assert(lists.0.to_multiset().contains(x));
        assert(a.0.to_multiset() == lists.0.to_multiset().remove(x));
        assert(a.1.to_multiset() == lists.1.to_multiset().insert(x));
        assert((a.0 + a.1).to_multiset() =~= (lists.0 + lists.1).to_multiset());
    }
    if 0 <= index < lists.1.len() {
        let r = after_remove(lists, index);
        let x = lists.1[index];
        crate::sorting::lemma_lex_order_total();
        lists.0.push(x).lemma_sort_by_ensures(lex_order());
        assert(lists.1.to_multiset().contains(x));
        assert(r.0.to_multiset() == lists.0.to_multiset().insert(x));
        assert(r.1.to_multiset() == lists.1.to_multiset().remove(x));
        assert((r.0 + r.1).to_multiset() =~= (lists.0 + lists.1).to_multiset());
    }
}

} // verus!
