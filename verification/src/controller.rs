//! The controller's decisions: how it answers the user interface's
//! messages and the daemon's replies, and the coins whose Electrum mode it
//! has activated.

use vstd::prelude::*;
use crate::mm2_config::{Mm2Json, is_config_for};
use crate::orderbook::{
    Order, Side, sort_asks, sort_bids, stable_price_sort, pair_is_ready, pair_ready, at_price,
};
use crate::text::{names, contains_name, copy_strings, lemma_names_push};
use crate::ui::UiMessage;

verus! {

/// Messages from the user interface to the controller.
pub enum ControllerMessage {
    /// Start the daemon with the given wallet passphrase.
    StartMainLayer(String),
    /// Activate the Electrum mode of a coin.
    ElectrumActivate(String),
    /// Stop the daemon.
    StopMarketmaker,
    /// Choose a coin for one side ("ask" or "bid") of the order book: (side, coin).
    SelectSide(String, String),
    /// List the coins that can be chosen for one side of the order book.
    FetchEnabledCoins(String),
    /// Fetch the order book of the chosen pair.
    UpdateOrderbook,
}

/// The daemon's answer to an Electrum activation.
pub struct ElectrumReply {
    pub error: Option<String>,
    pub coin: Option<String>,
    pub address: Option<String>,
    pub balance: Option<String>,
}

/// The daemon's answer to a balance request.
pub struct BalanceReply {
    pub error: Option<String>,
    pub address: Option<String>,
    pub balance: Option<String>,
}

/// What the controller learns: a message from the user interface, or the
/// result of work that it asked for.
pub enum Event {
    /// A message from the user interface.
    Message(ControllerMessage),
    /// The daemon's RPC password and the user's home directory, read for
    /// starting the daemon with `passphrase`.
    StartInfo { passphrase: String, userpass: String, userhome: String },
    /// The reply to the Electrum activation that the controller asked for.
    Electrum { electrum: ElectrumReply },
    /// The reply to the balance request made when `coin` was chosen for `side`.
    Balance { side: String, coin: String, reply: BalanceReply },
    /// The labels of the two coin buttons of the order book screen.
    PairLabels { base: String, rel: String },
    /// The order book of the chosen pair, as the daemon sent it.
    Book { asks: Vec<Order>, bids: Vec<Order> },
}

/// Work that the controller asks for, in order.
pub enum Action {
    /// Read the daemon's RPC password and the home directory, then report
    /// them with `Event::StartInfo`.
    ReadStartInfo { passphrase: String },
    /// Write the daemon's configuration file.
    WriteConfig(Mm2Json),
    /// Start the daemon, which reads the configuration file; remove the file
    /// once it has started.
    LaunchMarketmaker,
    /// Send a message to the user interface.
    SendUi(UiMessage),
    /// Ask the daemon to activate a coin's Electrum mode and report the
    /// reply with `Event::Electrum`.
    RequestElectrum { coin: String },
    /// Ask the daemon to activate a coin's Electrum mode; the reply is not
    /// reported.
    EnableElectrum { coin: String },
    /// Stop the daemon.
    StopMarketmaker,
    /// Ask the daemon for a coin's balance and report the reply with
    /// `Event::Balance`.
    RequestBalance { side: String, coin: String },
    /// Show a message of the daemon to the user.
    Print(String),
    /// Read the labels of the two coin buttons and report them with
    /// `Event::PairLabels`.
    ReadPairLabels,
    /// Ask the daemon for the order book of `base` against `rel` and report
    /// it with `Event::Book`.
    RequestBook { base: String, rel: String },
}

/// The controller's own state: the coins whose Electrum mode it activated,
/// in the order of activation, and the coin whose activation it asked the
/// daemon for and awaits the reply to.
pub struct ControllerState {
    electrum_enabled: Vec<String>,
    awaiting_electrum: Option<String>,
}

/// What the controller remembers, as values.
pub struct ControllerView {
    pub enabled: Seq<Seq<char>>,
    pub awaiting: Option<Seq<char>>,
}

/// The text of an optional string.
pub open spec fn opt_name(o: Option<String>) -> Option<Seq<char>> {
    match o {
        Some(s) => Some(s@),
        None => None,
    }
}

impl View for ControllerState {
    type V = ControllerView;

    closed spec fn view(&self) -> ControllerView {
        ControllerView {
            enabled: names(self.electrum_enabled@),
            awaiting: opt_name(self.awaiting_electrum),
        }
    }
}

/// The events that the controller can take: a successful daemon reply
/// carries the fields that the controller passes on.
pub open spec fn accepts(s: ControllerView, event: Event) -> bool {
    match event {
        Event::Electrum { electrum } => (s.awaiting is Some && electrum.error is None) ==> {
            &&& electrum.coin is Some
            &&& electrum.address is Some
            &&& electrum.balance is Some
        },
        Event::Balance { side, coin, reply } => (reply.error is None && s.enabled.contains(
            coin@,
        )) ==> {
            &&& reply.address is Some
            &&& reply.balance is Some
        },
        _ => true,
    }
}

/// What the controller remembers after the event. Asking for an activation
/// makes its coin awaited; the reply ends the wait, and a successful reply
/// adds the awaited coin to the activated ones. A reply that nothing awaits
/// changes nothing.
pub open spec fn state_after(s: ControllerView, event: Event) -> ControllerView {
    match event {
        Event::Message(ControllerMessage::ElectrumActivate(coin)) => ControllerView {
            enabled: s.enabled,
            awaiting: Some(coin@),
        },
        Event::Electrum { electrum } => match s.awaiting {
            Some(coin) => ControllerView {
                enabled: if electrum.error is None {
                    s.enabled.push(coin)
                } else {
                    s.enabled
                },
                awaiting: None,
            },
            None => s,
        },
        _ => s,
    }
}

/// The work that answers an event, in order.
pub open spec fn actions_for(s: ControllerView, event: Event, acts: Seq<Action>) -> bool {
    let enabled = s.enabled;
    match event {
        Event::Message(msg) => match msg {
            ControllerMessage::StartMainLayer(passphrase) => {
                &&& acts.len() == 1
                &&& acts[0] matches Action::ReadStartInfo { passphrase: p } && p == passphrase
            },
            ControllerMessage::ElectrumActivate(coin) => {
                &&& acts.len() == 1
                &&& acts[0] matches Action::RequestElectrum { coin: c } && c == coin
            },
            ControllerMessage::StopMarketmaker => {
                &&& acts.len() == 1
                &&& acts[0] is StopMarketmaker
            },
            ControllerMessage::SelectSide(side, coin) => {
                &&& acts.len() == 1
                &&& acts[0] matches Action::RequestBalance { side: s, coin: c } && s == side && c
                    == coin
            },
            ControllerMessage::FetchEnabledCoins(side) => {
                &&& acts.len() == 1
                &&& acts[0] matches Action::SendUi(UiMessage::OrderbookSelectCoin(s, coins)) && s
                    == side && names(coins@) == enabled
            },
            ControllerMessage::UpdateOrderbook => {
                &&& acts.len() == 1
                &&& acts[0] is ReadPairLabels
            },
        },
        Event::StartInfo { passphrase, userpass, userhome } => {
            &&& acts.len() == 3
            &&& acts[0] matches Action::WriteConfig(cfg) && is_config_for(
                cfg,
                userpass@,
                passphrase@,
                userhome@,
            )
            &&& acts[1] is LaunchMarketmaker
            &&& acts[2] matches Action::SendUi(m) && m is StartMainLayer
        },
        Event::Electrum { electrum } => if s.awaiting is None {
            acts.len() == 0
        } else {
            match electrum.error {
                Some(e) => {
                    &&& acts.len() == 1
                    &&& acts[0] matches Action::Print(t) && t == e
                },
                None => {
                    &&& acts.len() == 1
                    &&& acts[0] matches Action::SendUi(UiMessage::ElectrumStarted((c, a, b)))
                        && Some(c) == electrum.coin && Some(a) == electrum.address && Some(b)
                        == electrum.balance
                },
            }
        },
        Event::Balance { side, coin, reply } => match reply.error {
            Some(e) => {
                &&& acts.len() == 1
                &&& acts[0] matches Action::Print(t) && t == e
            },
            None => if enabled.contains(coin@) {
                &&& acts.len() == 1
                &&& acts[0] matches Action::SendUi(
                    UiMessage::OrderbookUpdateCoinSelect(s, b, a, c),
                ) && s == side && Some(b) == reply.balance && Some(a) == reply.address && c == coin
            } else {
                &&& acts.len() == 1
                &&& acts[0] matches Action::EnableElectrum { coin: c } && c == coin
            },
        },
        Event::PairLabels { base, rel } => if pair_is_ready(base@, rel@) {
            &&& acts.len() == 1
            &&& acts[0] matches Action::RequestBook { base: b, rel: r } && b == base && r == rel
        } else {
            acts.len() == 0
        },
        Event::Book { asks, bids } => {
            &&& acts.len() == 1
            &&& acts[0] matches Action::SendUi(UiMessage::UpdateOrderbook(a, b)) && stable_price_sort(
                asks@,
                a@,
                Side::Ask,
            ) && stable_price_sort(bids@, b@, Side::Bid)
        },
    }
}

impl ControllerState {
    /// A controller that has activated no coin yet and awaits no reply.
    pub fn new() -> (res: Self)
        ensures
            res@.enabled == Seq::<Seq<char>>::empty(),
            res@.awaiting is None,
    {
        let s = ControllerState { electrum_enabled: Vec::new(), awaiting_electrum: None };
        proof {
            assert(names(s.electrum_enabled@) =~= Seq::<Seq<char>>::empty());
        }
        s
    }

    /// The coins whose Electrum mode is active, in the order of activation.
    pub fn enabled_coins(&self) -> (res: Vec<String>)
        ensures
            names(res@) == self@.enabled,
    {
        copy_strings(&self.electrum_enabled)
    }

    /// Takes one event: updates what the controller remembers and returns
    /// the work that answers the event.
    pub fn step(&mut self, event: Event) -> (res: Vec<Action>)
        requires
            accepts(old(self)@, event),
        ensures
            final(self)@ == state_after(old(self)@, event),
            actions_for(old(self)@, event, res@),
    {
        let mut acts: Vec<Action> = Vec::new();
        match event {
            Event::Message(msg) => match msg {
                ControllerMessage::StartMainLayer(passphrase) => {
                    acts.push(Action::ReadStartInfo { passphrase });
                },
                ControllerMessage::ElectrumActivate(coin) => {
                    self.awaiting_electrum = Some(coin.clone());
                    acts.push(Action::RequestElectrum { coin });
                },
                ControllerMessage::StopMarketmaker => {
                    acts.push(Action::StopMarketmaker);
                },
                ControllerMessage::SelectSide(side, coin) => {
                    acts.push(Action::RequestBalance { side, coin });
                },
                ControllerMessage::FetchEnabledCoins(side) => {
                    let coins = copy_strings(&self.electrum_enabled);
                    acts.push(Action::SendUi(UiMessage::OrderbookSelectCoin(side, coins)));
                },
                ControllerMessage::UpdateOrderbook => {
                    acts.push(Action::ReadPairLabels);
                },
            },
            Event::StartInfo { passphrase, userpass, userhome } => {
                let cfg = Mm2Json::create(userpass.as_str(), passphrase.as_str(), userhome.as_str());
                acts.push(Action::WriteConfig(cfg));
                acts.push(Action::LaunchMarketmaker);
                acts.push(Action::SendUi(UiMessage::StartMainLayer));
            },
            Event::Electrum { electrum } => {
                let mut awaited: Option<String> = None;
                std::mem::swap(&mut awaited, &mut self.awaiting_electrum);
                match awaited {
                    None => {},
                    Some(coin) => match electrum.error {
                        Some(e) => {
                            acts.push(Action::Print(e));
                        },
                        None => {
                            let c = electrum.coin.unwrap();
                            let a = electrum.address.unwrap();
                            let b = electrum.balance.unwrap();
                            proof {
                                lemma_names_push(self.electrum_enabled@, coin);
                            }
                            self.electrum_enabled.push(coin);
                            acts.push(Action::SendUi(UiMessage::ElectrumStarted((c, a, b))));
                        },
                    },
                }
            },
            Event::Balance { side, coin, reply } => match reply.error {
                Some(e) => {
                    acts.push(Action::Print(e));
                },
                None => {
                    if contains_name(&self.electrum_enabled, &coin) {
                        let a = reply.address.unwrap();
                        let b = reply.balance.unwrap();
                        acts.push(
                            Action::SendUi(UiMessage::OrderbookUpdateCoinSelect(side, b, a, coin)),
                        );
                    } else {
                        acts.push(Action::EnableElectrum { coin });
                    }
                },
            },
            Event::PairLabels { base, rel } => {
                if pair_ready(base.as_str(), rel.as_str()) {
                    acts.push(Action::RequestBook { base, rel });
                }
            },
            Event::Book { asks, bids } => {
                let a = sort_asks(asks);
                let b = sort_bids(bids);
                acts.push(Action::SendUi(UiMessage::UpdateOrderbook(a, b)));
            },
        }
        acts
    }
}

/// The activated coins only grow: no event removes or reorders one.
pub proof fn lemma_enabled_only_grows(s: ControllerView, event: Event)
    ensures
        s.enabled.is_prefix_of(state_after(s, event).enabled),
{
    assert(s.enabled.is_prefix_of(s.enabled));
    if let Event::Electrum { electrum } = event {
        if let Some(coin) = s.awaiting {
            if electrum.error is None {
                assert(s.enabled.is_prefix_of(s.enabled.push(coin)));
            }
        }
    }
}

/// What the controller remembers after taking the events in order.
pub open spec fn run(s: ControllerView, events: Seq<Event>) -> ControllerView
    decreases events.len(),
{
    if events.len() == 0 {
        s
    } else {
        run(state_after(s, events[0]), events.drop_first())
    }
}

/// The coins of the activation requests that the daemon confirmed, in
/// order, one per confirmed request: a request for a coin is answered by
/// the next Electrum reply (a later request replaces an unanswered one); a
/// reply without error confirms it. `awaiting` is a request made before the
/// events.
pub open spec fn confirmed_activations(awaiting: Option<Seq<char>>, events: Seq<Event>) -> Seq<
    Seq<char>,
>
    decreases events.len(),
{
    if events.len() == 0 {
        Seq::empty()
    } else {
        let rest = events.drop_first();
        match events[0] {
            Event::Message(ControllerMessage::ElectrumActivate(coin)) => confirmed_activations(
                Some(coin@),
                rest,
            ),
            Event::Electrum { electrum } => match awaiting {
                Some(coin) => if electrum.error is None {
                    seq![coin] + confirmed_activations(None, rest)
                } else {
                    confirmed_activations(None, rest)
                },
                None => confirmed_activations(None, rest),
            },
            _ => confirmed_activations(awaiting, rest),
        }
    }
}

/// Over any run, the coins activated at the start stay, in order, and the
/// only coins added are those of the activation requests that the daemon
/// confirmed, in the order of confirmation, each once.
pub proof fn lemma_activated_coins_are_confirmed_requests(s: ControllerView, events: Seq<Event>)
    ensures
        run(s, events).enabled == s.enabled + confirmed_activations(s.awaiting, events),
        s.enabled.is_prefix_of(run(s, events).enabled),
    decreases events.len(),
{
    if events.len() == 0 {
        assert(s.enabled + Seq::<Seq<char>>::empty() =~= s.enabled);
    } else {
        let rest = events.drop_first();
        let next = state_after(s, events[0]);
        lemma_activated_coins_are_confirmed_requests(next, rest);
        match events[0] {
            Event::Message(ControllerMessage::ElectrumActivate(coin)) => {},
            Event::Electrum { electrum } => match s.awaiting {
                Some(coin) => {
                    if electrum.error is None {
                        assert(s.enabled.push(coin) + confirmed_activations(None, rest) =~= s.enabled
                            + (seq![coin] + confirmed_activations(None, rest)));
                    }
                },
                None => {},
            },
            _ => {},
        }
    }
    assert(s.enabled.is_prefix_of(s.enabled + confirmed_activations(s.awaiting, events)));
}

/// A coin whose activation the daemon confirmed is offered from then on
/// when the user chooses a coin for either side of the order book.
pub proof fn lemma_activated_coin_is_offered(
    s: ControllerView,
    electrum: ElectrumReply,
    side: String,
    acts: Seq<Action>,
)
    requires
        s.awaiting is Some,
        electrum.error is None,
        actions_for(
            state_after(s, Event::Electrum { electrum }),
            Event::Message(ControllerMessage::FetchEnabledCoins(side)),
            acts,
        ),
    ensures
        acts[0] matches Action::SendUi(UiMessage::OrderbookSelectCoin(sd, coins)) && names(
            coins@,
        ).contains(s.awaiting.unwrap()),
{
    let after = s.enabled.push(s.awaiting.unwrap());
    assert(after[s.enabled.len() as int] == s.awaiting.unwrap());
}

/// The order book sent to the screen holds exactly the offers received,
/// asks with the lowest price first and bids with the highest price first;
/// offers of one price keep the order in which they arrived (`at_price` is
/// the list of offers with a given price).
pub proof fn lemma_book_is_sent_in_price_order(
    s: ControllerView,
    asks: Vec<Order>,
    bids: Vec<Order>,
    acts: Seq<Action>,
)
    requires
        actions_for(s, Event::Book { asks, bids }, acts),
    ensures
        acts.len() == 1,
        acts[0] matches Action::SendUi(UiMessage::UpdateOrderbook(a, b)) && {
            &&& forall|i: int, j: int|
                0 <= i < j < a@.len() ==> #[trigger] a@[i].price_key <= #[trigger] a@[j].price_key
            &&& forall|i: int, j: int|
                0 <= i < j < b@.len() ==> #[trigger] b@[i].price_key >= #[trigger] b@[j].price_key
            &&& forall|key: u64| #[trigger] at_price(a@, key) == at_price(asks@, key)
            &&& forall|key: u64| #[trigger] at_price(b@, key) == at_price(bids@, key)
        },
{
}

/// From the daemon's order book to the screen: the ask table is filled with
/// the received asks, lowest price first, and the bid table with the
/// received bids, highest price first, offers of one price in arrival order.
pub proof fn lemma_book_reaches_tables_in_price_order(
    s: ControllerView,
    asks: Vec<Order>,
    bids: Vec<Order>,
    acts: Seq<Action>,
    msg: UiMessage,
    screen: Seq<crate::ui::UiAction>,
)
    requires
        actions_for(s, Event::Book { asks, bids }, acts),
        acts[0] == Action::SendUi(msg),
        crate::ui::actions_for(msg, screen),
    ensures
        screen.len() == 2,
        screen[0] matches crate::ui::UiAction::FillOrders { id, side, orders } && {
            &&& id@ == "ask-side"@
            &&& side == Side::Ask
            &&& forall|i: int, j: int|
                0 <= i < j < orders@.len() ==> #[trigger] orders@[i].price_key
                    <= #[trigger] orders@[j].price_key
            &&& forall|key: u64| #[trigger] at_price(orders@, key) == at_price(asks@, key)
        },
        screen[1] matches crate::ui::UiAction::FillOrders { id, side, orders } && {
            &&& id@ == "bid-side"@
            &&& side == Side::Bid
            &&& forall|i: int, j: int|
                0 <= i < j < orders@.len() ==> #[trigger] orders@[i].price_key
                    >= #[trigger] orders@[j].price_key
            &&& forall|key: u64| #[trigger] at_price(orders@, key) == at_price(bids@, key)
        },
{
    lemma_book_is_sent_in_price_order(s, asks, bids, acts);
}

/// When the daemon gives the balance of an activated coin, the screen is
/// told to show that coin, its address and its balance on the side the coin
/// was chosen for.
pub proof fn lemma_balance_is_shown_on_its_side(
    s: ControllerView,
    side: String,
    coin: String,
    reply: BalanceReply,
    acts: Seq<Action>,
)
    requires
        reply.error is None,
        s.enabled.contains(coin@),
        actions_for(s, Event::Balance { side, coin, reply }, acts),
    ensures
        acts.len() == 1,
        acts[0] matches Action::SendUi(UiMessage::OrderbookUpdateCoinSelect(sd, b, a, c)) && {
            &&& sd@ == side@
            &&& c@ == coin@
            &&& Some(b) == reply.balance
            &&& Some(a) == reply.address
        },
{
}

} // verus!
