use casparian_tui::text_order::{insert_distinct, sort_strings, str_lt};

#[test]
fn string_order_matches_std() {
    let words = ["", "a", "ab", "b", "B", "é", "z", "aa", "ba"];
    for x in words {
        for y in words {
            assert_eq!(str_lt(x, y), x < y, "{} {}", x, y);
        }
    }
}

#[test]
fn sort_matches_std() {
    let v: Vec<String> = ["pear", "apple", "fig", "apple", "Zed"].iter().map(|s| s.to_string()).collect();
    let mut expected = v.clone();
    expected.sort();
    assert_eq!(sort_strings(&v), expected);
}

#[test]
fn insert_keeps_sorted_without_repeats() {
    let mut v: Vec<String> = Vec::new();
    for t in ["m", "b", "x", "b", "a"] {
        insert_distinct(&mut v, t);
    }
    assert_eq!(v, vec!["a", "b", "m", "x"]);
}
