//! The rows of the active coins screen.

use vstd::prelude::*;
use crate::text::{names, contains_name};

verus! {

/// One row of the active coins screen. A coin with an Electrum server gets
/// a button that activates it and views for its address and balance; other
/// coins get an empty row.
pub struct CoinRow {
    pub coin: String,
    pub electrum: bool,
}

/// One row per coin of the coins file, in its order, marking the coins that
/// have Electrum servers.
pub fn coin_rows(coins: &Vec<String>, electrum_coins: &Vec<String>) -> (res: Vec<CoinRow>)
    ensures
        res@.len() == coins@.len(),
        forall|i: int|
            0 <= i < coins@.len() ==> {
                &&& (#[trigger] res@[i]).coin@ == coins@[i]@
                &&& res@[i].electrum == names(electrum_coins@).contains(coins@[i]@)
            },
{
    let mut rows: Vec<CoinRow> = Vec::new();
    let mut i: usize = 0;
    while i < coins.len()
        invariant
            i <= coins.len(),
            rows@.len() == i,
            forall|j: int|
                0 <= j < i ==> {
                    &&& (#[trigger] rows@[j]).coin@ == coins@[j]@
                    &&& rows@[j].electrum == names(electrum_coins@).contains(coins@[j]@)
                },
        decreases coins.len() - i,
    {
        let electrum = contains_name(electrum_coins, &coins[i]);
        rows.push(CoinRow { coin: coins[i].clone(), electrum });
        i = i + 1;
    }
    rows
}

} // verus!
