use mmgui::text::{Comparison, lex_compare, has_char, contains_name, prefixed, copy_strings};
use mmgui::sorting::{sort_names, insert_sorted};

fn strings(v: &[&str]) -> Vec<String> {
    v.iter().map(|s| s.to_string()).collect()
}

#[test]
fn lex_compare_orders_like_str() {
    assert_eq!(lex_compare("BTC", "KMD"), Comparison::Less);
    assert_eq!(lex_compare("KMD", "BTC"), Comparison::Greater);
    assert_eq!(lex_compare("KMD", "KMD"), Comparison::Equal);
    assert_eq!(lex_compare("", ""), Comparison::Equal);
    assert_eq!(lex_compare("", "A"), Comparison::Less);
    assert_eq!(lex_compare("ETH", "ET"), Comparison::Greater);
    assert_eq!(lex_compare("Z", "a"), Comparison::Less);
    assert_eq!(lex_compare("0.5", "0.25"), Comparison::Greater);
    assert_eq!(lex_compare("é", "z"), Comparison::Greater);
}

#[test]
fn has_char_finds_characters() {
    assert!(has_char("<Select coin>", '<'));
    assert!(!has_char("KMD", '<'));
    assert!(!has_char("", '<'));
}

#[test]
fn contains_name_compares_text() {
    let v = strings(&["BTC", "KMD"]);
    assert!(contains_name(&v, &"KMD".to_string()));
    assert!(!contains_name(&v, &"ETH".to_string()));
    assert!(!contains_name(&Vec::new(), &"KMD".to_string()));
}

#[test]
fn prefixed_and_copy() {
    assert_eq!(prefixed("electrum_coin_", "KMD"), "electrum_coin_KMD");
    let v = strings(&["B", "A"]);
    assert_eq!(copy_strings(&v), v);
}

#[test]
fn sort_names_sorts_like_vec_sort() {
    let v = strings(&["KMD", "BTC", "ETH", "BTC", "DOGE", "", "a", "Z"]);
    let mut expected = v.clone();
    expected.sort();
    assert_eq!(sort_names(v), expected);
    assert_eq!(sort_names(Vec::new()), Vec::<String>::new());
}

#[test]
fn insert_sorted_keeps_order() {
    let mut v = strings(&["BTC", "ETH", "KMD"]);
    insert_sorted(&mut v, "DOGE".to_string());
    assert_eq!(v, strings(&["BTC", "DOGE", "ETH", "KMD"]));
    insert_sorted(&mut v, "ZEC".to_string());
    assert_eq!(v, strings(&["BTC", "DOGE", "ETH", "KMD", "ZEC"]));
    insert_sorted(&mut v, "AAA".to_string());
    assert_eq!(v[0], "AAA");
}
