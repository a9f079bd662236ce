//! The text utilities: percent-encoding, replacement, number formatting
//! and parsing.

use music_remote::text::find;
use music_remote::text::format_time;
use music_remote::text::matches_at;
use music_remote::text::parse_u8;
use music_remote::text::replace_all;
use music_remote::text::starts_with;
use music_remote::text::str_eq;
use music_remote::text::u64_to_string;
use music_remote::text::urlencoding;

#[test]
fn str_eq_basic() {
    assert!(str_eq("abc", "abc"));
    assert!(!str_eq("abc", "abd"));
    assert!(!str_eq("abc", "ab"));
    assert!(str_eq("", ""));
}

#[test]
fn find_leftmost() {
    assert_eq!(find("hello world", "o"), Some(4));
    assert_eq!(find("hello world", "world"), Some(6));
    assert_eq!(find("hello world", "xyz"), None);
    assert_eq!(find("abc", ""), Some(0));
}

#[test]
fn matches_at_positions() {
    assert!(matches_at("abcdef", "cd", 2));
    assert!(!matches_at("abcdef", "cd", 1));
}

#[test]
fn starts_with_prefix() {
    assert!(starts_with("music://x", "music://"));
    assert!(!starts_with("https://x", "music://"));
    assert!(!starts_with("mus", "music://"));
}

#[test]
fn replace_all_multiple() {
    assert_eq!(replace_all("aXbXc", "X", "YY"), "aYYbYYc");
    assert_eq!(replace_all("nothing", "X", "YY"), "nothing");
    assert_eq!(replace_all("XXX", "XX", "Z"), "ZX");
}

#[test]
fn urlencoding_unreserved_kept() {
    assert_eq!(urlencoding("AZaz09-_.~"), "AZaz09-_.~");
}

#[test]
fn urlencoding_space_and_ascii() {
    assert_eq!(urlencoding("a b"), "a%20b");
    assert_eq!(urlencoding("a&b=c"), "a%26b%3Dc");
}

#[test]
fn urlencoding_multibyte() {
    // U+00E9 is 0xC3 0xA9 in UTF-8.
    assert_eq!(urlencoding("é"), "%C3%A9");
    // U+1F3B5 (a four-byte character) is 0xF0 0x9F 0x8E 0xB5.
    assert_eq!(urlencoding("\u{1F3B5}"), "%F0%9F%8E%B5");
    // U+D55C (a three-byte character) is 0xED 0x95 0x9C.
    assert_eq!(urlencoding("\u{D55C}"), "%ED%95%9C");
}

#[test]
fn u64_to_string_values() {
    assert_eq!(u64_to_string(0), "0");
    assert_eq!(u64_to_string(7), "7");
    assert_eq!(u64_to_string(100), "100");
    assert_eq!(u64_to_string(98765), "98765");
}

#[test]
fn format_time_values() {
    assert_eq!(format_time(0), "00:00");
    assert_eq!(format_time(75), "01:15");
    assert_eq!(format_time(600), "10:00");
    assert_eq!(format_time(59), "00:59");
    assert_eq!(format_time(3600), "60:00");
}

#[test]
fn parse_u8_valid() {
    assert_eq!(parse_u8("0"), Some(0));
    assert_eq!(parse_u8("42"), Some(42));
    assert_eq!(parse_u8("255"), Some(255));
    assert_eq!(parse_u8("+5"), Some(5));
    assert_eq!(parse_u8("007"), Some(7));
}

#[test]
fn parse_u8_invalid() {
    assert_eq!(parse_u8(""), None);
    assert_eq!(parse_u8("+"), None);
    assert_eq!(parse_u8("256"), None);
    assert_eq!(parse_u8("12a"), None);
    assert_eq!(parse_u8("-1"), None);
    assert_eq!(parse_u8(" 5"), None);
}
