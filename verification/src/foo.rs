//! The crate's running example: a wrapper over strings equal to `"foo"`.
//!
//! `FooValidator` accepts exactly the three-byte sequence `foo`, so `FooStr`
//! and `FooString` are the borrowed and owned wrappers around that single
//! value. The example exercises the whole constructor and comparison family
//! with the smallest possible validation predicate.

use vstd::prelude::*;
use vstd::utf8::{encode_utf8, valid_utf8};

use crate::borrowed::CheckedStr;
use crate::owned::CheckedString;
use crate::validate::Validator;

verus! {

/// The byte sequence `foo`.
pub open spec fn foo_bytes() -> Seq<u8> {
    seq![102u8, 111u8, 111u8]
}

/// Validation predicate accepting exactly the byte sequence `foo`.
#[derive(Debug)]
pub struct FooValidator;

impl Validator for FooValidator {
    open spec fn spec_valid(bytes: Seq<u8>) -> bool {
        bytes == foo_bytes()
    }

    proof fn accepted_implies_utf8(bytes: Seq<u8>) {
        let chars = seq!['f', 'o', 'o'];
        assert(vstd::utf8::is_ascii_chars(chars)) by {
            assert(chars[0] == 'f');
            assert(chars[1] == 'o');
            assert(chars[2] == 'o');
        }
        vstd::utf8::is_ascii_chars_encode_utf8(chars);
        assert(encode_utf8(chars) =~= foo_bytes());
        vstd::utf8::encode_utf8_valid_utf8(chars);
    }

    fn validate_bytes(input: &[u8]) -> (r: bool) {
        let r = input.len() == 3 && input[0] == 102 && input[1] == 111 && input[2] == 111;
        proof {
            if r {
                assert(input@ =~= foo_bytes());
            }
        }
        r
    }

    fn validate_str(input: &str) -> (r: bool) {
        Self::validate_bytes(input.as_bytes())
    }
}

/// Borrowed wrapper of the running example.
pub type FooStr<'a> = CheckedStr<'a, FooValidator>;

/// Owned wrapper of the running example.
pub type FooString = CheckedString<FooValidator>;

} // verus!
