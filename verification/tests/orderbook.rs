use mmgui::orderbook::{Order, Side, BasicColumn, sort_asks, sort_bids, sort_by_price, compare_orders, pair_ready};
use mmgui::text::Comparison;

fn order(price: &str, vol: &str, key: u64) -> Order {
    Order { price: price.to_string(), maxvolume: vol.to_string(), price_key: key }
}

fn summary(v: &[Order]) -> Vec<(String, String)> {
    v.iter().map(|o| (o.price.clone(), o.maxvolume.clone())).collect()
}

#[test]
fn asks_lowest_price_first_stable() {
    let asks = vec![order("3", "a", 30), order("1", "b", 10), order("2", "c", 20), order("1", "d", 10)];
    let sorted = sort_asks(asks);
    assert_eq!(
        summary(&sorted),
        vec![
            ("1".to_string(), "b".to_string()),
            ("1".to_string(), "d".to_string()),
            ("2".to_string(), "c".to_string()),
            ("3".to_string(), "a".to_string()),
        ]
    );
}

#[test]
fn bids_highest_price_first_stable() {
    let bids = vec![order("1", "a", 10), order("3", "b", 30), order("1", "c", 10), order("2", "d", 20)];
    let sorted = sort_bids(bids);
    assert_eq!(
        summary(&sorted),
        vec![
            ("3".to_string(), "b".to_string()),
            ("2".to_string(), "d".to_string()),
            ("1".to_string(), "a".to_string()),
            ("1".to_string(), "c".to_string()),
        ]
    );
}

#[test]
fn sorting_empty_and_sorted_books() {
    assert!(sort_by_price(Vec::new(), Side::Ask).is_empty());
    let book = vec![order("1", "a", 1), order("2", "b", 2), order("2", "c", 2)];
    let again = sort_by_price(book, Side::Ask);
    assert_eq!(summary(&again), summary(&sort_by_price(again.iter().map(|o| order(&o.price, &o.maxvolume, o.price_key)).collect(), Side::Ask)));
    assert_eq!(summary(&again)[0].1, "a");
}

#[test]
fn table_order_of_columns() {
    let a = order("1", "10", 1);
    let b = order("2", "9", 2);
    assert_eq!(compare_orders(&a, &b, BasicColumn::Price, Side::Ask), Comparison::Less);
    assert_eq!(compare_orders(&a, &b, BasicColumn::Price, Side::Bid), Comparison::Greater);
    assert_eq!(compare_orders(&a, &a, BasicColumn::Price, Side::Bid), Comparison::Equal);
    // volumes compare as text: "10" < "9"
    assert_eq!(compare_orders(&a, &b, BasicColumn::Maxvolume, Side::Ask), Comparison::Less);
    assert_eq!(compare_orders(&b, &a, BasicColumn::Maxvolume, Side::Bid), Comparison::Greater);
}

#[test]
fn pair_ready_requires_two_chosen_coins() {
    assert!(pair_ready("KMD", "BTC"));
    assert!(!pair_ready("", "BTC"));
    assert!(!pair_ready("KMD", ""));
    assert!(!pair_ready("<Select coin>", "BTC"));
    assert!(!pair_ready("KMD", "<Select coin>"));
}
