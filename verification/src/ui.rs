//! What the user interface does on each message from the controller.

use vstd::prelude::*;
use vstd::string::*;
use crate::orderbook::{Order, Side};
use crate::ids::{electrum_coin_id, electrum_balance_id, side_address_id, side_button_id};
use crate::text::prefixed;

verus! {

/// Messages from the controller to the user interface.
pub enum UiMessage {
    /// New text for the output view.
    UpdateOutput(String),
    /// A balance for the output view.
    Balance(String),
    /// The daemon was started: leave the login screen for the main screen.
    StartMainLayer,
    /// A coin's Electrum mode is active: (coin, address, balance).
    ElectrumStarted((String, String, String)),
    /// Offer the enabled coins for one side ("ask" or "bid") of the order book.
    OrderbookSelectCoin(String, Vec<String>),
    /// A coin was chosen for one side: (side, balance, address, coin).
    OrderbookUpdateCoinSelect(String, String, String, String),
    /// A fresh order book: asks and bids in display order.
    UpdateOrderbook(Vec<Order>, Vec<Order>),
}

/// One change to the screen.
pub enum UiAction {
    /// Set the content of the text view registered as `id`. When no such
    /// view is shown, a `required` update is an error; any other is skipped.
    SetText { id: String, content: String, required: bool },
    /// Set the label of the button registered as `id`; skipped when no such
    /// button is shown.
    SetButtonLabel { id: String, label: String },
    /// Remove the topmost layer.
    PopLayer,
    /// Show the main screen (menu, coins and order book) as a new layer.
    ShowMainLayer,
    /// Open a dialog that lists `coins`; choosing one asks the controller to
    /// select it for `side`.
    ShowCoinPicker { side: String, coins: Vec<String> },
    /// Fill the order table of one side, registered as `id`, with `orders`.
    FillOrders { id: String, side: Side, orders: Vec<Order> },
}

/// The actions that answer a message, in the order they are taken.
pub open spec fn actions_for(msg: UiMessage, acts: Seq<UiAction>) -> bool {
    match msg {
        UiMessage::UpdateOutput(text) | UiMessage::Balance(text) => {
            &&& acts.len() == 1
            &&& acts[0] matches UiAction::SetText { id, content, required } && id@ == "output"@
                && content == text && required
        },
        UiMessage::StartMainLayer => {
            &&& acts.len() == 2
            &&& acts[0] is PopLayer
            &&& acts[1] is ShowMainLayer
        },
        UiMessage::ElectrumStarted((coin, address, balance)) => {
            &&& acts.len() == 2
            &&& acts[0] matches UiAction::SetText { id, content, required } && id@
                == "electrum_balance_"@ + coin@ && content == balance && !required
            &&& acts[1] matches UiAction::SetText { id, content, required } && id@
                == "electrum_coin_"@ + coin@ && content == address && !required
        },
        UiMessage::OrderbookSelectCoin(side, coins) => {
            &&& acts.len() == 1
            &&& acts[0] matches UiAction::ShowCoinPicker { side: s, coins: c } && s == side && c
                == coins
        },
        UiMessage::OrderbookUpdateCoinSelect(side, balance, address, coin) => {
            &&& acts.len() == 3
            &&& acts[0] matches UiAction::SetText { id, content, required } && id@ == "orderbook_"@
                + side@ + "_address"@ && content@ == "\n"@ + address@ + ": "@ + balance@
                && !required
            &&& acts[1] matches UiAction::SetButtonLabel { id, label } && id@ == "orderbook_"@
                + side@ + "_select_btn"@ && label == coin
            &&& acts[2] is PopLayer
        },
        UiMessage::UpdateOrderbook(asks, bids) => {
            &&& acts.len() == 2
            &&& acts[0] matches UiAction::FillOrders { id, side, orders } && id@ == "ask-side"@
                && side == Side::Ask && orders == asks
            &&& acts[1] matches UiAction::FillOrders { id, side, orders } && id@ == "bid-side"@
                && side == Side::Bid && orders == bids
        },
    }
}

/// Decides how the screen answers a message from the controller.
pub fn ui_actions(msg: UiMessage) -> (res: Vec<UiAction>)
    ensures
        actions_for(msg, res@),
{
    let mut acts: Vec<UiAction> = Vec::new();
    match msg {
        UiMessage::UpdateOutput(text) => {
            acts.push(
                UiAction::SetText { id: String::from_str("output"), content: text, required: true },
            );
        },
        UiMessage::Balance(balance) => {
            acts.push(
                UiAction::SetText {
                    id: String::from_str("output"),
                    content: balance,
                    required: true,
                },
            );
        },
        UiMessage::StartMainLayer => {
            acts.push(UiAction::PopLayer);
            acts.push(UiAction::ShowMainLayer);
        },
        UiMessage::ElectrumStarted((coin, address, balance)) => {
            let balance_id = electrum_balance_id(coin.as_str());
            let coin_id = electrum_coin_id(coin.as_str());
            acts.push(UiAction::SetText { id: balance_id, content: balance, required: false });
            acts.push(UiAction::SetText { id: coin_id, content: address, required: false });
        },
        UiMessage::OrderbookSelectCoin(side, coins) => {
            acts.push(UiAction::ShowCoinPicker { side, coins });
        },
        UiMessage::OrderbookUpdateCoinSelect(side, balance, address, coin) => {
            let mut content = prefixed("\n", address.as_str());
            content.append(": ");
            content.append(balance.as_str());
            acts.push(
                UiAction::SetText { id: side_address_id(side.as_str()), content, required: false },
            );
            acts.push(UiAction::SetButtonLabel { id: side_button_id(side.as_str()), label: coin });
            acts.push(UiAction::PopLayer);
        },
        UiMessage::UpdateOrderbook(asks, bids) => {
            acts.push(
                UiAction::FillOrders {
                    id: String::from_str("ask-side"),
                    side: Side::Ask,
                    orders: asks,
                },
            );
            acts.push(
                UiAction::FillOrders {
                    id: String::from_str("bid-side"),
                    side: Side::Bid,
                    orders: bids,
                },
            );
        },
    }
    acts
}

/// When a coin's Electrum mode starts, the screen updates the very views
/// that the coins screen registered for that coin: its balance view and its
/// address view (named by `electrum_balance_id` and `electrum_coin_id`), and
/// skips either when it is not shown.
pub proof fn lemma_electrum_update_reaches_coin_row(
    coin: String,
    address: String,
    balance: String,
    acts: Seq<UiAction>,
    balance_view: String,
    address_view: String,
)
    requires
        actions_for(UiMessage::ElectrumStarted((coin, address, balance)), acts),
        balance_view@ == "electrum_balance_"@ + coin@,
        address_view@ == "electrum_coin_"@ + coin@,
    ensures
        acts[0] matches UiAction::SetText { id, content, required } && id@ == balance_view@
            && content == balance && !required,
        acts[1] matches UiAction::SetText { id, content, required } && id@ == address_view@
            && content == address && !required,
{
}

/// The coin chosen for a side is shown in the views that the order book
/// screen registered for that side (named by `side_address_id` and
/// `side_button_id`), and a view that is not shown is skipped.
pub proof fn lemma_side_update_reaches_side_views(
    side: String,
    balance: String,
    address: String,
    coin: String,
    acts: Seq<UiAction>,
    address_view: String,
    button: String,
)
    requires
        actions_for(UiMessage::OrderbookUpdateCoinSelect(side, balance, address, coin), acts),
        address_view@ == "orderbook_"@ + side@ + "_address"@,
        button@ == "orderbook_"@ + side@ + "_select_btn"@,
    ensures
        acts[0] matches UiAction::SetText { id, content, required } && id@ == address_view@
            && !required,
        acts[1] matches UiAction::SetButtonLabel { id, label } && id@ == button@ && label == coin,
{
}

/// The order tables are filled with the offers of the message exactly as
/// they came, in the same order: the asks in the ask table, the bids in the
/// bid table.
pub proof fn lemma_tables_show_offers_as_sent(
    asks: Vec<Order>,
    bids: Vec<Order>,
    acts: Seq<UiAction>,
)
    requires
        actions_for(UiMessage::UpdateOrderbook(asks, bids), acts),
    ensures
        acts.len() == 2,
        acts[0] matches UiAction::FillOrders { id, side, orders } && id@ == "ask-side"@ && side
            == Side::Ask && orders@.len() == asks@.len() && forall|i: int|
            0 <= i < asks@.len() ==> #[trigger] orders@[i] == asks@[i],
        acts[1] matches UiAction::FillOrders { id, side, orders } && id@ == "bid-side"@ && side
            == Side::Bid && orders@.len() == bids@.len() && forall|i: int|
            0 <= i < bids@.len() ==> #[trigger] orders@[i] == bids@[i],
{
}

} // verus!
