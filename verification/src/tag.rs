//! A second worked instance of the validation contract: a tag, a nonempty
//! word of lowercase ASCII letters. Unlike the single-valued running
//! example it admits many values, so the comparison family is exercised on
//! unequal values too.

use vstd::prelude::*;
use vstd::utf8::{is_leading_byte_width_1, partial_valid_utf8, partial_valid_utf8_extend_ascii_block};

use crate::borrowed::CheckedStr;
use crate::owned::CheckedString;
use crate::validate::Validator;

verus! {

/// Whether the bytes form a nonempty word of lowercase ASCII letters.
pub open spec fn spec_tag(bytes: Seq<u8>) -> bool {
    bytes.len() > 0 && forall|i: int| 0 <= i < bytes.len() ==> 97 <= #[trigger] bytes[i] <= 122
}

/// Validation predicate accepting exactly the nonempty lowercase ASCII
/// words.
#[derive(Debug)]
pub struct TagValidator;

impl Validator for TagValidator {
    open spec fn spec_valid(bytes: Seq<u8>) -> bool {
        spec_tag(bytes)
    }

    proof fn accepted_implies_utf8(bytes: Seq<u8>) {
        assert(bytes.subrange(0, 0) =~= Seq::<u8>::empty());
        assert(vstd::utf8::valid_utf8(Seq::<u8>::empty()));
        assert(partial_valid_utf8(bytes, 0));
        assert forall|i: int| 0 <= 0 <= i < bytes.len() <= bytes.len() implies is_leading_byte_width_1(
            bytes[i],
        ) by {}
        partial_valid_utf8_extend_ascii_block(bytes, 0, bytes.len() as int);
        assert(bytes.subrange(0, bytes.len() as int) =~= bytes);
    }

    fn validate_bytes(input: &[u8]) -> (r: bool) {
        let n = input.len();
        if n == 0 {
            return false;
        }
        let mut i: usize = 0;
        while i < n
            invariant
                n == input@.len(),
                i <= n,
                forall|j: int| 0 <= j < i ==> 97 <= #[trigger] input@[j] <= 122,
            decreases n - i,
        {
            let b = input[i];
            if b < 97 || b > 122 {
                return false;
            }
            i += 1;
        }
        true
    }

    fn validate_str(input: &str) -> (r: bool) {
        Self::validate_bytes(input.as_bytes())
    }
}

/// Borrowed tag wrapper.
pub type TagStr<'a> = CheckedStr<'a, TagValidator>;

/// Owned tag wrapper.
pub type TagString = CheckedString<TagValidator>;

} // verus!
