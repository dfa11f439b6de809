use mmgui::mm2_config::{Mm2Json, MM2_NETID};
use mmgui::menu_v::{create, layer_to_show};
use mmgui::active_coins::coin_rows;
use mmgui::ids::{electrum_coin_id, electrum_balance_id, electrum_activate_id, side_address_id, side_button_id};
use mmgui::ui::{UiMessage, UiAction, ui_actions};
use mmgui::orderbook::{Order, Side};

#[test]
fn mm2_json_fields() {
    let cfg = Mm2Json::create("secret", "my words", "/home/me");
    assert_eq!(cfg.gui, "MM2GUI");
    assert_eq!(cfg.netid, 9999);
    assert_eq!(MM2_NETID, 9999);
    assert_eq!(cfg.rpc_password, "secret");
    assert_eq!(cfg.passphrase, "my words");
    assert_eq!(cfg.userhome, "/home/me");
}

#[test]
fn menu_entries() {
    let m = create();
    assert_eq!(m.items.len(), 2);
    assert_eq!(m.items[0].label, "Coins");
    assert_eq!(m.items[0].layer, "active_coins");
    assert_eq!(m.items[1].label, "Orderbook");
    assert_eq!(m.items[1].layer, "orderbook");
    assert_eq!(m.footer, vec!["++++++++++++++".to_string(), "Q to quit".to_string()]);
    assert_eq!(layer_to_show(""), None);
    assert_eq!(layer_to_show("orderbook"), Some("orderbook".to_string()));
}

#[test]
fn view_ids() {
    assert_eq!(electrum_coin_id("KMD"), "electrum_coin_KMD");
    assert_eq!(electrum_balance_id("KMD"), "electrum_balance_KMD");
    assert_eq!(electrum_activate_id("KMD"), "electrum_activate_KMD");
    assert_eq!(side_address_id("ask"), "orderbook_ask_address");
    assert_eq!(side_button_id("bid"), "orderbook_bid_select_btn");
}

#[test]
fn rows_mark_electrum_coins() {
    let coins = vec!["KMD".to_string(), "BTC".to_string(), "ETH".to_string()];
    let electrum = vec!["ETH".to_string(), "KMD".to_string()];
    let rows = coin_rows(&coins, &electrum);
    assert_eq!(rows.len(), 3);
    assert_eq!((rows[0].coin.as_str(), rows[0].electrum), ("KMD", true));
    assert_eq!((rows[1].coin.as_str(), rows[1].electrum), ("BTC", false));
    assert_eq!((rows[2].coin.as_str(), rows[2].electrum), ("ETH", true));
}

fn set_text(a: &UiAction) -> (String, String) {
    match a {
        UiAction::SetText { id, content, .. } => (id.clone(), content.clone()),
        _ => panic!("expected a text update"),
    }
}

fn required(a: &UiAction) -> bool {
    match a {
        UiAction::SetText { required, .. } => *required,
        _ => panic!("expected a text update"),
    }
}

#[test]
fn ui_output_and_layers() {
    let acts = ui_actions(UiMessage::UpdateOutput("hello".to_string()));
    assert_eq!(acts.len(), 1);
    assert_eq!(set_text(&acts[0]), ("output".to_string(), "hello".to_string()));
    assert!(required(&acts[0]));
    let acts = ui_actions(UiMessage::Balance("12.5".to_string()));
    assert_eq!(set_text(&acts[0]), ("output".to_string(), "12.5".to_string()));
    let acts = ui_actions(UiMessage::StartMainLayer);
    assert!(matches!(acts[..], [UiAction::PopLayer, UiAction::ShowMainLayer]));
}

#[test]
fn ui_electrum_started_updates_coin_row() {
    let acts = ui_actions(UiMessage::ElectrumStarted(("KMD".to_string(), "RAddr".to_string(), "7".to_string())));
    assert_eq!(acts.len(), 2);
    assert_eq!(set_text(&acts[0]), (electrum_balance_id("KMD"), "7".to_string()));
    assert_eq!(set_text(&acts[1]), (electrum_coin_id("KMD"), "RAddr".to_string()));
    // a coin row that is not shown is skipped
    assert!(!required(&acts[0]));
    assert!(!required(&acts[1]));
}

#[test]
fn ui_coin_choice_for_a_side() {
    let acts = ui_actions(UiMessage::OrderbookSelectCoin("ask".to_string(), vec!["KMD".to_string()]));
    match &acts[..] {
        [UiAction::ShowCoinPicker { side, coins }] => {
            assert_eq!(side, "ask");
            assert_eq!(coins, &vec!["KMD".to_string()]);
        }
        _ => panic!("expected a coin picker"),
    }
    let acts = ui_actions(UiMessage::OrderbookUpdateCoinSelect(
        "bid".to_string(), "3.5".to_string(), "RAddr".to_string(), "BTC".to_string()));
    assert_eq!(acts.len(), 3);
    assert_eq!(set_text(&acts[0]), ("orderbook_bid_address".to_string(), "\nRAddr: 3.5".to_string()));
    assert!(!required(&acts[0]));
    match &acts[1] {
        UiAction::SetButtonLabel { id, label } => {
            assert_eq!(id, "orderbook_bid_select_btn");
            assert_eq!(label, "BTC");
        }
        _ => panic!("expected a label update"),
    }
    assert!(matches!(acts[2], UiAction::PopLayer));
}

#[test]
fn ui_fills_tables() {
    let ask = Order { price: "1".to_string(), maxvolume: "2".to_string(), price_key: 1 };
    let acts = ui_actions(UiMessage::UpdateOrderbook(vec![ask], Vec::new()));
    match &acts[..] {
        [UiAction::FillOrders { id: a, side: sa, orders: oa }, UiAction::FillOrders { id: b, side: sb, orders: ob }] => {
            assert_eq!(*sa, Side::Ask);
            assert_eq!(*sb, Side::Bid);
            assert_eq!(a, "ask-side");
            assert_eq!(oa.len(), 1);
            assert_eq!(oa[0].price, "1");
            assert_eq!(b, "bid-side");
            assert!(ob.is_empty());
        }
        _ => panic!("expected two tables"),
    }
}
