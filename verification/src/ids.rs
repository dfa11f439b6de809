//! The names under which views are registered, shared by the code that
//! builds a view and the code that later finds it.

use vstd::prelude::*;
use crate::text::prefixed;

verus! {

/// The view that shows the address of an activated coin.
pub fn electrum_coin_id(coin: &str) -> (res: String)
    ensures
        res@ == "electrum_coin_"@ + coin@,
{
    prefixed("electrum_coin_", coin)
}

/// The view that shows the balance of an activated coin.
pub fn electrum_balance_id(coin: &str) -> (res: String)
    ensures
        res@ == "electrum_balance_"@ + coin@,
{
    prefixed("electrum_balance_", coin)
}

/// The button that activates a coin's Electrum mode.
pub fn electrum_activate_id(coin: &str) -> (res: String)
    ensures
        res@ == "electrum_activate_"@ + coin@,
{
    prefixed("electrum_activate_", coin)
}

/// The view that shows the address and balance of the coin chosen for one
/// side ("ask" or "bid") of the order book.
pub fn side_address_id(side: &str) -> (res: String)
    ensures
        res@ == "orderbook_"@ + side@ + "_address"@,
{
    let mut r = prefixed("orderbook_", side);
    r.append("_address");
    r
}

/// The button that chooses the coin of one side of the order book.
pub fn side_button_id(side: &str) -> (res: String)
    ensures
        res@ == "orderbook_"@ + side@ + "_select_btn"@,
{
    let mut r = prefixed("orderbook_", side);
    r.append("_select_btn");
    r
}

} // verus!
