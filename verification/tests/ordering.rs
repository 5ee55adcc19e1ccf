//! The byte-level comparison helpers that the wrapper orderings delegate
//! to: equality and the byte-lexicographic order.

use str_newtype::Comparison;
use str_newtype::tag::{TagString, TagStr};
use str_newtype::text::{bytes_cmp, bytes_eq, str_eq};

#[test]
fn byte_equality_is_exact() {
    assert!(bytes_eq(b"", b""));
    assert!(bytes_eq(b"foo", b"foo"));
    assert!(!bytes_eq(b"foo", b"foo "));
    assert!(!bytes_eq(b"foo", b"fou"));
    assert!(!bytes_eq(b"foo", b""));
}

#[test]
fn byte_order_is_lexicographic() {
    assert_eq!(bytes_cmp(b"", b""), Comparison::Equal);
    assert_eq!(bytes_cmp(b"abc", b"abc"), Comparison::Equal);
    assert_eq!(bytes_cmp(b"abc", b"abd"), Comparison::Less);
    assert_eq!(bytes_cmp(b"abd", b"abc"), Comparison::Greater);
    assert_eq!(bytes_cmp(b"ab", b"abc"), Comparison::Less);
    assert_eq!(bytes_cmp(b"abc", b"ab"), Comparison::Greater);
    assert_eq!(bytes_cmp(b"", b"a"), Comparison::Less);
    assert_eq!(bytes_cmp(b"b", b"aaaa"), Comparison::Greater);
}

#[test]
fn string_equality_compares_contents() {
    assert!(str_eq("", ""));
    assert!(str_eq("déjà", "déjà"));
    assert!(!str_eq("déjà", "deja"));
    assert!(!str_eq("a", "ab"));
}

#[test]
fn tag_validator_accepts_lowercase_words_only() {
    assert!(TagStr::from_str("alpha").is_ok());
    assert!(TagStr::from_str("").is_err());
    assert!(TagStr::from_str("Alpha").is_err());
    assert!(TagStr::from_str("alpha beta").is_err());
    assert!(TagString::from_string("beta".to_owned()).is_ok());
}

#[test]
fn wrapper_ordering_distinguishes_unequal_tags() {
    let abc = TagStr::from_str("abc").unwrap();
    let abd = TagStr::from_str("abd").unwrap();
    assert_eq!(abc.cmp_with(&abd), Comparison::Less);
    assert_eq!(abd.cmp_with(&abc), Comparison::Greater);
    assert_eq!(abc.cmp_with(&abc), Comparison::Equal);
    assert!(abc != abd);
    assert_eq!(abc.cmp_foreign(&b"abd".to_vec()), Some(Comparison::Less));
    assert_eq!(abc.cmp_foreign(&b"ABD".to_vec()), None);
    assert!(!abc.eq_foreign(&b"abd".to_vec()));
    assert!(abc.eq_foreign(&b"abc".to_vec()));
}

#[test]
fn owned_tag_ordering_delegates_to_the_view() {
    let ab = TagString::from_string("ab".to_owned()).unwrap();
    let abc = TagString::from_string("abc".to_owned()).unwrap();
    assert_eq!(ab.cmp_with(&abc), Comparison::Less);
    assert_eq!(abc.cmp_with(&ab), Comparison::Greater);
    assert_eq!(ab.cmp_borrowed(&abc.as_checked_str()), Comparison::Less);
    assert!(ab != abc);
}
