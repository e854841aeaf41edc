//! Texts and maps keyed by them.

use odoo_operator::string_map::{ByteMap, StringMap};
use odoo_operator::text::{
    bytes_of, contains_space, decimal_number, decimal_string, same, starts_with_slash, text_of,
};

#[test]
fn decimal_numbers_are_written_and_read_back() {
    for n in [0, 7, 10, 1025, u64::MAX] {
        let s = decimal_string(n);
        assert_eq!(s, n.to_string());
        let chars: Vec<char> = s.chars().collect();
        assert_eq!(decimal_number(&chars), Some(n));
    }
    for s in ["", "x", "1x", "+1", "18446744073709551616"] {
        let chars: Vec<char> = s.chars().collect();
        assert_eq!(decimal_number(&chars), None, "{s}");
    }
    assert_eq!(decimal_number(&['0', '0', '7']), Some(7));
}

#[test]
fn bytes_read_back_as_text() {
    for s in ["", "plain", "déjà vu ✓"] {
        assert_eq!(bytes_of(s), s.as_bytes());
        assert_eq!(text_of(&bytes_of(s)), s);
    }
    assert_eq!(text_of(&[0x61, 0xff]), "a\u{fffd}");
}

#[test]
fn tests_on_text() {
    assert!(same("a", "a") && !same("a", "b") && !same("a", "aa"));
    assert!(contains_space("a b") && contains_space("\n") && !contains_space("ab"));
    assert!(starts_with_slash("/a") && !starts_with_slash("a/") && !starts_with_slash(""));
}

#[test]
fn maps_keep_each_key_once() {
    let mut m = StringMap::new();
    assert!(m.is_empty());
    m.insert("a".to_string(), "1".to_string());
    m.insert("b".to_string(), "2".to_string());
    m.insert("a".to_string(), "3".to_string());
    assert_eq!(m.entries().len(), 2);
    assert_eq!(m.get("a").unwrap(), "3");
    assert!(m.contains_key("b") && !m.contains_key("c"));
    let copy = m.clone();
    assert_eq!(copy, m);
    let mut other = StringMap::of("b", "4");
    other.insert("c".to_string(), "5".to_string());
    m.extend(other);
    assert_eq!(m.entries().len(), 3);
    assert_eq!(m.get("b").unwrap(), "4");
    assert!(copy != m);
    let mut reordered = StringMap::of("c", "5");
    reordered.insert("b".to_string(), "4".to_string());
    reordered.insert("a".to_string(), "3".to_string());
    assert_eq!(reordered, m);
    let mut bytes = ByteMap::new();
    bytes.insert("k".to_string(), vec![1, 2]);
    assert_eq!(bytes.get("k"), Some(&vec![1, 2]));
}
