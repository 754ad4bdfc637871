//! The shared text helpers: decimal formatting, searching and joining.

use uni_service::textparse::i64_to_dec;
use uni_service::textparse::join_with;
use uni_service::textparse::str_contains;
use uni_service::textparse::u64_to_dec;

#[test]
fn decimal_formatting() {
    assert_eq!(u64_to_dec(0), "0");
    assert_eq!(u64_to_dec(7), "7");
    assert_eq!(u64_to_dec(1000), "1000");
    assert_eq!(u64_to_dec(18446744073709551615), "18446744073709551615");
    assert_eq!(i64_to_dec(-1), "-1");
    assert_eq!(i64_to_dec(-9223372036854775808), "-9223372036854775808");
    assert_eq!(i64_to_dec(42), "42");
}

#[test]
fn substring_search() {
    assert!(str_contains("state = running\n", "state = running"));
    assert!(!str_contains("state = not running", "state = running"));
    assert!(str_contains("abc", ""));
    assert!(!str_contains("ab", "abc"));
}

#[test]
fn joining() {
    let parts = vec!["/bin/app".to_string(), "service".to_string(), "x".to_string()];
    assert_eq!(join_with(&parts, " "), "/bin/app service x");
    assert_eq!(join_with(&Vec::new(), " "), "");
    assert_eq!(join_with(&vec!["one".to_string()], " "), "one");
}
