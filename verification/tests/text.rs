use misskey_ltl::text::{decimal_string, has_content, repeat_string};
use std::collections::HashSet;

#[test]
fn numbers_in_decimal() {
    for n in [0, 9, 10, 99, 100, 407, 65_536, usize::MAX] {
        assert_eq!(decimal_string(n), n.to_string());
    }
}

#[test]
fn no_two_numbers_are_written_alike() {
    let written: HashSet<String> = (0..2000).map(decimal_string).collect();
    assert_eq!(written.len(), 2000);
}

#[test]
fn strings_are_repeated() {
    assert_eq!(repeat_string("ab", 0), "");
    assert_eq!(repeat_string("ab", 3), "ababab");
    assert_eq!(repeat_string("", 5), "");
}

#[test]
fn content_is_told_from_white_space() {
    assert!(!has_content(""));
    assert!(!has_content(" \t\r\n\u{a0}\u{3000}"));
    assert!(has_content("  a  "));
    assert!(has_content("\u{200b}"));
}
