use ellie::parse::parse_u64;
use ellie::text::{
    ascii_lowercase, bool_string, contains, count_matches, decimal_string, format_int, has_word, join, replace,
    same_text, signed_string, split_bytes, split_words, trim,
};

#[test]
fn format_int_groups_thousands() {
    assert_eq!(format_int(1234567), "1,234,567");
    assert_eq!(format_int(999), "999");
    assert_eq!(format_int(1000), "1,000");
    assert_eq!(format_int(1000005), "1,000,005");
    assert_eq!(format_int(0), "0");
}

#[test]
fn grouped_number_keeps_the_digits() {
    for n in [0u64, 7, 999, 1000, 65_536, 1_000_000, 18_446_744_073_709_551_615] {
        assert_eq!(format_int(n).replace(',', ""), decimal_string(n));
    }
}

#[test]
fn decimal_and_signed_notation() {
    assert_eq!(decimal_string(0), "0");
    assert_eq!(decimal_string(18_446_744_073_709_551_615), "18446744073709551615");
    assert_eq!(signed_string(-42), "-42");
    assert_eq!(signed_string(i64::MIN), "-9223372036854775808");
    assert_eq!(signed_string(17), "17");
}

#[test]
fn join_puts_separator_between_neighbours() {
    let parts = vec!["a".to_string(), "b".to_string(), "c".to_string()];
    assert_eq!(join(&parts, " / "), "a / b / c");
    assert_eq!(join(&vec![], ", "), "");
    assert_eq!(join(&vec!["one".to_string()], ", "), "one");
}

#[test]
fn replace_matches_std() {
    assert_eq!(replace("aaa", "aa", "b"), "ba");
    assert_eq!(replace("spotify:abc", "spotify:", ""), "abc");
    assert_eq!(replace("It is quarantined. It is.", "It is", "This subreddit has been"), "This subreddit has been quarantined. This subreddit has been.");
}

#[test]
fn replace_without_occurrence_keeps_text() {
    assert_eq!(replace("hello", "xyz", "!"), "hello");
    assert_eq!(replace("", "a", "b"), "");
}

#[test]
fn count_and_contains() {
    assert_eq!(count_matches("a, b, c", ", "), 2);
    assert_eq!(count_matches("aaaa", "aa"), 2);
    assert!(contains("hello world", "o w"));
    assert!(!contains("hello", "world"));
}

#[test]
fn trim_removes_white_space_at_both_ends() {
    assert_eq!(trim("  serde \n"), "serde");
    assert_eq!(trim("\u{3000}x y\t"), "x y");
    assert_eq!(trim("   "), "");
    assert_eq!(trim(&trim("  a  ")), trim("  a  "));
}

#[test]
fn words_split_on_white_space() {
    assert_eq!(split_words("  speed  THIS. IS.\tASCII. "), vec!["speed", "THIS.", "IS.", "ASCII."]);
    assert!(split_words(" \n ").is_empty());
    assert!(has_word("block doom speed", "speed"));
    assert!(!has_word("block doom speed", "spee"));
}

#[test]
fn byte_split_cuts_at_a_byte_count() {
    let (a, b) = split_bytes("héllo", 3);
    assert_eq!(a, "hé");
    assert_eq!(b, "llo");
}

#[test]
fn small_text_helpers() {
    assert_eq!(ascii_lowercase("HeLLo Ä"), "hello Ä");
    assert_eq!(bool_string(true), "true");
    assert_eq!(bool_string(false), "false");
    assert!(same_text("abc", "abc"));
    assert!(!same_text("abc", "abd"));
}

#[test]
fn parse_reads_unsigned_numbers() {
    assert_eq!(parse_u64("42"), Some(42));
    assert_eq!(parse_u64("+7"), Some(7));
    assert_eq!(parse_u64(""), None);
    assert_eq!(parse_u64("+"), None);
    assert_eq!(parse_u64("-1"), None);
    assert_eq!(parse_u64("1 2"), None);
    assert_eq!(parse_u64("18446744073709551615"), Some(u64::MAX));
    assert_eq!(parse_u64("18446744073709551616"), None);
}

#[test]
fn written_numbers_read_back() {
    for n in [0u64, 9, 10, 12345, u64::MAX] {
        assert_eq!(parse_u64(&decimal_string(n)), Some(n));
    }
}
