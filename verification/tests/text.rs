use tlint::dsl::display::{check_header, indented};
use tlint::text::{chars_of, contains, decimal_string, replace_all};

#[test]
fn decimal_string_writes_numerals_without_leading_zeros() {
    assert_eq!(decimal_string(0), "0");
    assert_eq!(decimal_string(7), "7");
    assert_eq!(decimal_string(10), "10");
    assert_eq!(decimal_string(12345), "12345");
    assert_eq!(decimal_string(usize::MAX), usize::MAX.to_string());
}

#[test]
fn contains_finds_a_pattern_anywhere() {
    assert!(contains("if x { \"passing\" }", "\"passing\""));
    assert!(contains("\"passing\"", "\"passing\""));
    assert!(contains("abc", ""));
    assert!(contains("", ""));
    assert!(contains("aab", "ab"));
    assert!(!contains("passing", "\"passing\""));
    assert!(!contains("ab", "abc"));
    assert!(!contains("", "a"));
    assert!(contains("größe ä", "ße"));
}

#[test]
fn chars_of_lists_the_characters() {
    assert_eq!(chars_of("aä€"), vec!['a', 'ä', '€']);
    assert!(chars_of("").is_empty());
}

#[test]
fn replace_all_replaces_from_left_to_right_without_overlap() {
    assert_eq!(replace_all("a\\nb\\nc", "\\n", " "), "a b c");
    assert_eq!(replace_all("aaa", "aa", "b"), "ba");
    assert_eq!(replace_all("abc", "x", "y"), "abc");
    assert_eq!(replace_all("abc", "", "y"), "abc");
    assert_eq!(replace_all("", "a", "b"), "");
    assert_eq!(replace_all("äxä", "x", "--"), "ä--ä");
    assert_eq!(replace_all("xx", "x", ""), "");
    assert_eq!(replace_all("abab", "ab", "ab"), "abab");
}

#[test]
fn check_header_pads_short_heads_to_equal_width() {
    assert_eq!(check_header("Group"), "  Group         ");
    assert_eq!(check_header("Group").len(), 16);
    assert_eq!(check_header("Description").len(), 16);
    assert_eq!(check_header(""), "                ");
    assert_eq!(check_header("Expectations"), "  Expectations  ");
    assert_eq!(check_header("A very long head"), "  A very long head  ");
}

#[test]
fn indented_moves_following_lines_in() {
    assert_eq!(indented("## Abstract\nText\n"), "## Abstract\n  Text\n  ");
    assert_eq!(indented("one line"), "one line");
}
