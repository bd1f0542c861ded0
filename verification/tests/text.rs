use underwriting_core::text::{
    concat2, concat3, contains, decimal_string, from_chars, holds, join, occurs_in, owned,
    push_decimal, strip_commas, to_chars,
};

#[test]
fn strip_commas_removes_every_comma_and_nothing_else() {
    assert_eq!(strip_commas("120,000.00"), "120000.00");
    assert_eq!(strip_commas(",,1,,2,,"), "12");
    assert_eq!(strip_commas("no commas"), "no commas");
    assert_eq!(strip_commas(""), "");
    assert_eq!(strip_commas(",,,"), "");
}

#[test]
fn decimal_string_writes_digits_without_leading_zeros() {
    assert_eq!(decimal_string(0), "0");
    assert_eq!(decimal_string(7), "7");
    assert_eq!(decimal_string(10), "10");
    assert_eq!(decimal_string(1234567890), "1234567890");
    assert_eq!(
        decimal_string(u128::MAX),
        "340282366920938463463374607431768211455"
    );
}

#[test]
fn push_decimal_appends_to_what_is_there() {
    let mut s = String::from("page-");
    push_decimal(&mut s, 42);
    assert_eq!(s, "page-42");
}

#[test]
fn join_puts_the_separator_between_neighbours_only() {
    let none: Vec<String> = vec![];
    assert_eq!(join(&none, " "), "");
    assert_eq!(join(&vec!["a".to_string()], " "), "a");
    assert_eq!(
        join(&vec!["a".to_string(), "b".to_string(), "c".to_string()], ", "),
        "a, b, c"
    );
    assert_eq!(join(&vec!["".to_string(), "".to_string()], "-"), "-");
}

#[test]
fn chars_go_there_and_back() {
    let chars = to_chars("a\u{00e9}\u{4e2d}z");
    assert_eq!(chars, vec!['a', '\u{00e9}', '\u{4e2d}', 'z']);
    assert_eq!(from_chars(&chars, 1, 3), "\u{00e9}\u{4e2d}");
    assert_eq!(from_chars(&chars, 0, 4), "a\u{00e9}\u{4e2d}z");
    assert_eq!(from_chars(&chars, 2, 2), "");
}

#[test]
fn concatenation_keeps_the_order() {
    assert_eq!(owned("abc"), "abc");
    assert_eq!(concat2("ab", "cd"), "abcd");
    assert_eq!(concat3("ab", "", "cd"), "abcd");
    assert_eq!(concat3("a", "b", "c"), "abc");
}

#[test]
fn a_text_contains_what_occurs_in_it() {
    assert!(contains("rent roll 2024", "rent"));
    assert!(contains("rent roll 2024", "roll"));
    assert!(contains("rent roll 2024", "2024"));
    assert!(contains("rent roll 2024", "t r"));
    assert!(contains("rent roll 2024", "rent roll 2024"));
    assert!(contains("aab", "ab"));
    assert!(contains("abababc", "ababc"));
    assert!(!contains("rent roll 2024", "Rent"));
    assert!(!contains("rent roll 2024", "rolls"));
    assert!(!contains("rent", "rent roll"));
    assert!(!contains("", "a"));
}

#[test]
fn every_text_contains_the_empty_text() {
    assert!(contains("abc", ""));
    assert!(contains("", ""));
}

#[test]
fn search_goes_by_characters() {
    assert!(contains("caf\u{00e9} au lait", "f\u{00e9} a"));
    assert!(contains("\u{4e2d}\u{6587}", "\u{6587}"));
    assert!(!contains("\u{4e2d}\u{6587}", "\u{6588}"));
    let hay = to_chars("net operating income");
    assert!(holds(&hay, "operating"));
    assert!(!holds(&hay, "noi"));
    assert!(occurs_in(&vec!['n', 'e'], &hay));
    assert!(occurs_in(&vec![], &vec![]));
    assert!(!occurs_in(&vec!['x'], &vec![]));
}
