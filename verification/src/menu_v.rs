//! The main menu: entries that bring a screen of the main layer to the front.

use vstd::prelude::*;
use vstd::string::*;

verus! {

/// One menu entry: the label shown and the name of the screen it shows.
pub struct MenuItem {
    pub label: String,
    pub layer: String,
}

/// The menu: its entries, and the lines shown below them.
pub struct Menu {
    pub items: Vec<MenuItem>,
    pub footer: Vec<String>,
}

/// The main menu: "Coins" shows the active coins screen, "Orderbook" the
/// order book screen; below them a rule and the hint that Q quits.
pub fn create() -> (res: Menu)
    ensures
        res.items@.len() == 2,
        res.items@[0].label@ == "Coins"@,
        res.items@[0].layer@ == "active_coins"@,
        res.items@[1].label@ == "Orderbook"@,
        res.items@[1].layer@ == "orderbook"@,
        res.footer@.len() == 2,
        res.footer@[0]@ == "++++++++++++++"@,
        res.footer@[1]@ == "Q to quit"@,
{
    let mut items: Vec<MenuItem> = Vec::new();
    items.push(
        MenuItem { label: String::from_str("Coins"), layer: String::from_str("active_coins") },
    );
    items.push(
        MenuItem { label: String::from_str("Orderbook"), layer: String::from_str("orderbook") },
    );
    let mut footer: Vec<String> = Vec::new();
    footer.push(String::from_str("++++++++++++++"));
    footer.push(String::from_str("Q to quit"));
    Menu { items, footer }
}

/// The screen to bring to the front when an entry with the given layer
/// name is selected: none for an empty name.
pub fn layer_to_show(layer: &str) -> (res: Option<String>)
    ensures
        layer@.len() == 0 ==> res is None,
        layer@.len() > 0 ==> (res matches Some(name) && name@ == layer@),
{
    if layer.is_empty() {
        None
    } else {
        Some(String::from_str(layer))
    }
}

} // verus!
