//! Behaviour of the validated wrapper types over the running example: a
//! validator accepting exactly the string `foo`.

use str_newtype::Comparison;
use str_newtype::borrowed::{CheckedStr, ValidationError};
use str_newtype::foo::{FooString, FooValidator};
use str_newtype::owned::CheckedString;

#[test]
fn byte_round_trip_preserves_accepted_input() {
    let input: &[u8] = b"foo";
    let w = CheckedStr::<FooValidator>::from_bytes(input).unwrap();
    assert_eq!(w.as_bytes(), input);
    let owned = CheckedString::<FooValidator>::from_bytes(input.to_vec()).unwrap();
    assert_eq!(owned.as_bytes(), input);
}

#[test]
fn scenario_foo_succeeds_and_bar_fails_on_both_paths() {
    let borrowed = CheckedStr::<FooValidator>::from_str("foo");
    assert!(borrowed.is_ok());
    let owned = FooString::new("foo".to_owned());
    assert!(owned.is_ok());

    let rejected = CheckedStr::<FooValidator>::from_str("bar");
    assert_eq!(rejected.unwrap_err(), ValidationError("bar"));
    let rejected_owned = FooString::new("bar".to_owned());
    assert_eq!(rejected_owned.unwrap_err(), ValidationError("bar".to_owned()));

    let owned = FooString::new("foo".to_owned()).unwrap();
    let borrowed = CheckedStr::<FooValidator>::from_str("foo").unwrap();
    assert!(owned.eq_borrowed(&borrowed));
}

#[test]
fn every_fallible_entry_point_follows_the_validator() {
    let good: Vec<u8> = b"foo".to_vec();
    let bad: Vec<u8> = b"fool".to_vec();
    assert!(CheckedStr::<FooValidator>::new(&good).is_ok());
    assert!(CheckedStr::<FooValidator>::new(&bad).is_err());
    assert!(CheckedStr::<FooValidator>::from_bytes(b"foo").is_ok());
    assert!(CheckedStr::<FooValidator>::from_bytes(b"fo").is_err());
    assert!(CheckedStr::<FooValidator>::from_str("foo").is_ok());
    assert!(CheckedStr::<FooValidator>::from_str("").is_err());
    assert!(CheckedString::<FooValidator>::new(good.clone()).is_ok());
    assert!(CheckedString::<FooValidator>::new(bad.clone()).is_err());
    assert!(CheckedString::<FooValidator>::from_bytes(good.clone()).is_ok());
    assert!(CheckedString::<FooValidator>::from_bytes(bad.clone()).is_err());
    assert!(CheckedString::<FooValidator>::from_string("foo".to_owned()).is_ok());
    assert!(CheckedString::<FooValidator>::from_string("bar".to_owned()).is_err());
}

#[test]
fn rejected_input_is_carried_back_unchanged() {
    let bad: Vec<u8> = b"bar".to_vec();
    let e = CheckedString::<FooValidator>::from_bytes(bad.clone()).unwrap_err();
    assert_eq!(e.0, bad);
    let e = CheckedStr::<FooValidator>::from_bytes(b"bar").unwrap_err();
    assert_eq!(e.0, b"bar".as_slice());
}

#[test]
fn foreign_equality_is_total_and_never_fails() {
    let w = CheckedStr::<FooValidator>::from_str("foo").unwrap();
    assert!(w.eq_foreign(&b"foo".to_vec()));
    assert!(!w.eq_foreign(&b"bar".to_vec()));
    assert!(!w.eq_foreign(&String::new()));
    assert!(w.eq_foreign(&"foo".to_owned()));
    let owned = FooString::new("foo".to_owned()).unwrap();
    assert!(owned.eq_foreign(&b"foo".to_vec()));
    assert!(!owned.eq_foreign(&b"quux".to_vec()));
}

#[test]
fn foreign_ordering_is_incomparable_on_rejected_values() {
    let w = CheckedStr::<FooValidator>::from_str("foo").unwrap();
    assert_eq!(w.cmp_foreign(&b"foo".to_vec()), Some(Comparison::Equal));
    assert_eq!(w.cmp_foreign(&b"bar".to_vec()), None);
    let owned = FooString::new("foo".to_owned()).unwrap();
    assert_eq!(owned.cmp_foreign(&b"foo".to_vec()), Some(Comparison::Equal));
    assert_eq!(owned.cmp_foreign(&String::new()), None);
}

#[test]
fn accessors_expose_the_wrapped_value() {
    let w = CheckedStr::<FooValidator>::from_str("foo").unwrap();
    assert_eq!(w.as_str(), "foo");
    assert_eq!(w.as_bytes(), b"foo");
    assert_eq!(w.to_text(), "foo".to_owned());
    let owned = w.to_owned();
    assert_eq!(owned.as_str(), "foo");
    assert_eq!(owned.as_bytes(), b"foo");
    assert_eq!(owned.to_text(), "foo".to_owned());
    assert_eq!(owned.clone().into_string(), "foo".to_owned());
    assert_eq!(owned.clone().into_bytes(), b"foo".to_vec());
}

#[test]
fn borrowing_accessor_recovers_the_borrowed_view() {
    let owned = FooString::from_string("foo".to_owned()).unwrap();
    let view = owned.as_checked_str();
    assert_eq!(view.as_str(), "foo");
    let direct = CheckedStr::<FooValidator>::from_str("foo").unwrap();
    assert!(view == direct);
    assert_eq!(owned.cmp_borrowed(&direct), Comparison::Equal);
}

#[test]
fn owned_equality_and_ordering_delegate_to_the_view() {
    let a = FooString::new("foo".to_owned()).unwrap();
    let b = FooString::new(b"foo".to_vec()).unwrap();
    assert!(a == b);
    assert_eq!(a.cmp_with(&b), Comparison::Equal);
}

#[test]
fn unchecked_paths_wrap_known_valid_input() {
    let w = CheckedStr::<FooValidator>::new_unchecked("foo");
    assert_eq!(w.as_str(), "foo");
    let w = CheckedStr::<FooValidator>::new_unchecked_from_bytes(b"foo");
    assert_eq!(w.as_bytes(), b"foo");
    let owned = CheckedString::<FooValidator>::new_unchecked(b"foo".to_vec());
    assert_eq!(owned.as_str(), "foo");
}

#[test]
fn infallible_byte_path_reports_decoding_failures() {
    let not_text: &[u8] = &[0xff, 0xfe];
    assert!(CheckedStr::<FooValidator>::from_bytes_infallible(not_text).is_err());
    assert!(CheckedString::<FooValidator>::from_bytes_infallible(not_text.to_vec()).is_err());
    let w = CheckedStr::<FooValidator>::from_bytes_infallible(b"foo").unwrap();
    assert_eq!(w.as_str(), "foo");
    let owned = CheckedString::<FooValidator>::from_bytes_infallible(b"foo".to_vec()).unwrap();
    assert_eq!(owned.as_str(), "foo");
}

#[test]
fn infallible_text_paths_wrap_directly() {
    let w = CheckedStr::<FooValidator>::new_infallible("foo");
    assert_eq!(w.as_str(), "foo");
    let w = CheckedStr::<FooValidator>::from_str_infallible("foo");
    assert_eq!(w.as_str(), "foo");
    let owned = CheckedString::<FooValidator>::new_infallible("foo".to_owned());
    assert_eq!(owned.as_str(), "foo");
    let owned = CheckedString::<FooValidator>::from_string_infallible("foo".to_owned());
    assert_eq!(owned.as_str(), "foo");
}

#[test]
fn infallible_comparisons_compare_by_value() {
    let w = CheckedStr::<FooValidator>::from_str("foo").unwrap();
    assert!(w.eq_foreign_infallible(&b"foo".to_vec()));
    assert_eq!(w.cmp_foreign_infallible(&b"foo".to_vec()), Comparison::Equal);
}

#[test]
fn validation_error_message_names_the_type_and_the_input() {
    let e = CheckedString::<FooValidator>::from_string("bar".to_owned()).unwrap_err();
    assert_eq!(e.message("foo"), "invalid foo: bar".to_owned());
}

#[test]
fn ordering_is_byte_lexicographic() {
    let a = CheckedStr::<FooValidator>::from_str("foo").unwrap();
    let b = CheckedStr::<FooValidator>::from_str("foo").unwrap();
    assert_eq!(a.cmp_with(&b), Comparison::Equal);
    assert_eq!(a.cmp_foreign(&b"foo".to_vec()), Some(Comparison::Equal));
}

#[test]
fn hash_input_equals_for_equal_owned_values() {
    // hashing delegates to the borrowing accessor, so equal values present
    // the same bytes to the hasher
    let a = FooString::new("foo".to_owned()).unwrap();
    let b = FooString::new(b"foo".to_vec()).unwrap();
    assert!(a == b);
    assert_eq!(a.as_bytes(), b.as_bytes());
}
