use logicflow::text::{
    chars_of, contains_text, ends_with_text, equal_ignoring_case, same_text, starts_with_text,
};

#[test]
fn same_text_compares_character_by_character() {
    assert!(same_text("", ""));
    assert!(same_text("cart.total", "cart.total"));
    assert!(!same_text("cart.total", "cart.totaL"));
    assert!(!same_text("cart.total", "cart.tota"));
    assert!(!same_text("cart.tota", "cart.total"));
    assert!(!same_text("", "a"));
    assert!(!same_text("a", ""));
    assert!(same_text("stra\u{df}e", "stra\u{df}e"));
    assert!(!same_text("e\u{301}", "\u{e9}"));
}

#[test]
fn chars_of_lists_characters_not_bytes() {
    assert_eq!(chars_of(""), Vec::<char>::new());
    assert_eq!(chars_of("abc"), vec!['a', 'b', 'c']);
    assert_eq!(chars_of("\u{e9}t\u{e9}"), vec!['\u{e9}', 't', '\u{e9}']);
}

#[test]
fn contains_text_finds_a_substring_anywhere() {
    assert!(contains_text("po box 123", "po box"));
    assert!(contains_text("123 main st, po box 303", "po box"));
    assert!(contains_text("a po box", "po box"));
    assert!(contains_text("abc", ""));
    assert!(contains_text("", ""));
    assert!(contains_text("abc", "abc"));
    assert!(!contains_text("abc", "abcd"));
    assert!(!contains_text("", "a"));
    assert!(!contains_text("boxwood lane", "po box"));
    assert!(!contains_text("po  box", "po box"));
    // A partial match must not hide the full one after it.
    assert!(contains_text("aaab", "aab"));
    assert!(contains_text("ababac", "abac"));
    // It is exact about case.
    assert!(!contains_text("PO Box", "po box"));
    assert!(contains_text("caf\u{e9} cr\u{e8}me", "\u{e9} c"));
}

#[test]
fn starts_with_text_tests_the_beginning() {
    assert!(starts_with_text("po box 123", "po box"));
    assert!(starts_with_text("po box", "po box"));
    assert!(starts_with_text("po box", ""));
    assert!(starts_with_text("", ""));
    assert!(!starts_with_text("a po box", "po box"));
    assert!(!starts_with_text("po", "po box"));
    assert!(!starts_with_text("", "p"));
}

#[test]
fn ends_with_text_tests_the_end() {
    assert!(ends_with_text("my po box", "po box"));
    assert!(ends_with_text("po box", "po box"));
    assert!(ends_with_text("po box", ""));
    assert!(ends_with_text("", ""));
    assert!(!ends_with_text("po box 1", "po box"));
    assert!(!ends_with_text("box", "po box"));
    assert!(!ends_with_text("", "x"));
    assert!(ends_with_text("cr\u{e8}me", "\u{e8}me"));
}

#[test]
fn equal_ignoring_case_lowercases_both_sides() {
    assert!(equal_ignoring_case("VIP", "vip"));
    assert!(equal_ignoring_case("vip", "VIP"));
    assert!(equal_ignoring_case("ViP", "vIp"));
    assert!(equal_ignoring_case("", ""));
    assert!(equal_ignoring_case("\u{c9}COLE", "\u{e9}cole"));
    assert!(!equal_ignoring_case("VIP", "vip "));
    assert!(!equal_ignoring_case("VIP", "gold"));
    assert!(!equal_ignoring_case("VIP", ""));
}
