use mmgui::controller::{ControllerState, ControllerMessage, Event, Action, ElectrumReply, BalanceReply};
use mmgui::orderbook::Order;
use mmgui::ui::UiMessage;

fn ok_electrum(coin: &str) -> ElectrumReply {
    ElectrumReply {
        error: None,
        coin: Some(coin.to_string()),
        address: Some("RAddr".to_string()),
        balance: Some("1.5".to_string()),
    }
}

#[test]
fn messages_ask_for_work() {
    let mut c = ControllerState::new();
    let acts = c.step(Event::Message(ControllerMessage::StartMainLayer("words".to_string())));
    assert!(matches!(&acts[..], [Action::ReadStartInfo { passphrase }] if passphrase == "words"));
    let acts = c.step(Event::Message(ControllerMessage::ElectrumActivate("KMD".to_string())));
    assert!(matches!(&acts[..], [Action::RequestElectrum { coin }] if coin == "KMD"));
    let acts = c.step(Event::Message(ControllerMessage::StopMarketmaker));
    assert!(matches!(&acts[..], [Action::StopMarketmaker]));
    let acts = c.step(Event::Message(ControllerMessage::SelectSide("ask".to_string(), "KMD".to_string())));
    assert!(matches!(&acts[..], [Action::RequestBalance { side, coin }] if side == "ask" && coin == "KMD"));
    let acts = c.step(Event::Message(ControllerMessage::UpdateOrderbook));
    assert!(matches!(&acts[..], [Action::ReadPairLabels]));
    assert!(c.enabled_coins().is_empty());
}

#[test]
fn start_info_writes_config_and_launches() {
    let mut c = ControllerState::new();
    let acts = c.step(Event::StartInfo {
        passphrase: "words".to_string(),
        userpass: "pw".to_string(),
        userhome: "/home/me".to_string(),
    });
    assert_eq!(acts.len(), 3);
    match &acts[0] {
        Action::WriteConfig(cfg) => {
            assert_eq!(cfg.gui, "MM2GUI");
            assert_eq!(cfg.netid, 9999);
            assert_eq!(cfg.rpc_password, "pw");
            assert_eq!(cfg.passphrase, "words");
            assert_eq!(cfg.userhome, "/home/me");
        }
        _ => panic!("expected the configuration"),
    }
    assert!(matches!(acts[1], Action::LaunchMarketmaker));
    assert!(matches!(acts[2], Action::SendUi(UiMessage::StartMainLayer)));
}

#[test]
fn electrum_reply_enables_coin_and_is_offered() {
    let mut c = ControllerState::new();
    c.step(Event::Message(ControllerMessage::ElectrumActivate("KMD".to_string())));
    let acts = c.step(Event::Electrum { electrum: ok_electrum("KMD") });
    match &acts[..] {
        [Action::SendUi(UiMessage::ElectrumStarted((coin, addr, bal)))] => {
            assert_eq!((coin.as_str(), addr.as_str(), bal.as_str()), ("KMD", "RAddr", "1.5"));
        }
        _ => panic!("expected the UI to learn of the coin"),
    }
    assert_eq!(c.enabled_coins(), vec!["KMD".to_string()]);
    let acts = c.step(Event::Message(ControllerMessage::FetchEnabledCoins("bid".to_string())));
    match &acts[..] {
        [Action::SendUi(UiMessage::OrderbookSelectCoin(side, coins))] => {
            assert_eq!(side, "bid");
            assert_eq!(coins, &vec!["KMD".to_string()]);
        }
        _ => panic!("expected the coin list"),
    }
}

#[test]
fn electrum_error_is_printed() {
    let mut c = ControllerState::new();
    c.step(Event::Message(ControllerMessage::ElectrumActivate("KMD".to_string())));
    let reply = ElectrumReply { error: Some("no servers".to_string()), coin: None, address: None, balance: None };
    let acts = c.step(Event::Electrum { electrum: reply });
    assert!(matches!(&acts[..], [Action::Print(e)] if e == "no servers"));
    assert!(c.enabled_coins().is_empty());
}

#[test]
fn balance_reply_decisions() {
    let mut c = ControllerState::new();
    let err = BalanceReply { error: Some("coin not enabled".to_string()), address: None, balance: None };
    let acts = c.step(Event::Balance { side: "ask".to_string(), coin: "KMD".to_string(), reply: err });
    assert!(matches!(&acts[..], [Action::Print(e)] if e == "coin not enabled"));
    // not yet activated: activate it
    let ok = BalanceReply { error: None, address: Some("RAddr".to_string()), balance: Some("2".to_string()) };
    let acts = c.step(Event::Balance { side: "ask".to_string(), coin: "KMD".to_string(), reply: ok });
    assert!(matches!(&acts[..], [Action::EnableElectrum { coin }] if coin == "KMD"));
    c.step(Event::Message(ControllerMessage::ElectrumActivate("KMD".to_string())));
    c.step(Event::Electrum { electrum: ok_electrum("KMD") });
    let ok = BalanceReply { error: None, address: Some("RAddr".to_string()), balance: Some("2".to_string()) };
    let acts = c.step(Event::Balance { side: "ask".to_string(), coin: "KMD".to_string(), reply: ok });
    match &acts[..] {
        [Action::SendUi(UiMessage::OrderbookUpdateCoinSelect(side, bal, addr, coin))] => {
            assert_eq!((side.as_str(), bal.as_str(), addr.as_str(), coin.as_str()), ("ask", "2", "RAddr", "KMD"));
        }
        _ => panic!("expected the UI update"),
    }
}

#[test]
fn pair_labels_and_book() {
    let mut c = ControllerState::new();
    let acts = c.step(Event::PairLabels { base: "<Select coin>".to_string(), rel: "BTC".to_string() });
    assert!(acts.is_empty());
    let acts = c.step(Event::PairLabels { base: "KMD".to_string(), rel: "BTC".to_string() });
    assert!(matches!(&acts[..], [Action::RequestBook { base, rel }] if base == "KMD" && rel == "BTC"));
    let o = |p: &str, k: u64| Order { price: p.to_string(), maxvolume: "1".to_string(), price_key: k };
    let acts = c.step(Event::Book { asks: vec![o("2", 2), o("1", 1)], bids: vec![o("1", 1), o("2", 2)] });
    match &acts[..] {
        [Action::SendUi(UiMessage::UpdateOrderbook(asks, bids))] => {
            assert_eq!(asks.iter().map(|x| x.price.as_str()).collect::<Vec<_>>(), vec!["1", "2"]);
            assert_eq!(bids.iter().map(|x| x.price.as_str()).collect::<Vec<_>>(), vec!["2", "1"]);
        }
        _ => panic!("expected the sorted book"),
    }
}

#[test]
fn reply_without_request_changes_nothing() {
    let mut c = ControllerState::new();
    let acts = c.step(Event::Electrum { electrum: ok_electrum("KMD") });
    assert!(acts.is_empty());
    assert!(c.enabled_coins().is_empty());
}

#[test]
fn one_coin_per_confirmed_request() {
    let mut c = ControllerState::new();
    c.step(Event::Message(ControllerMessage::ElectrumActivate("KMD".to_string())));
    c.step(Event::Electrum { electrum: ok_electrum("KMD") });
    // a second reply answers no request
    c.step(Event::Electrum { electrum: ok_electrum("KMD") });
    c.step(Event::Message(ControllerMessage::ElectrumActivate("BTC".to_string())));
    let failed = ElectrumReply { error: Some("down".to_string()), coin: None, address: None, balance: None };
    c.step(Event::Electrum { electrum: failed });
    c.step(Event::Message(ControllerMessage::ElectrumActivate("ETH".to_string())));
    c.step(Event::Electrum { electrum: ok_electrum("ETH") });
    assert_eq!(c.enabled_coins(), vec!["KMD".to_string(), "ETH".to_string()]);
}
