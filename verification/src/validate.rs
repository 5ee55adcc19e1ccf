//! The validation contract between the engine and its users: a byte-level
//! validation predicate supplied from outside, and the trusted-buffer
//! capability that owned constructors accept their input through.

use vstd::prelude::*;
use vstd::string::StringSliceAdditionalSpecFns;
use vstd::utf8::{encode_utf8, valid_utf8};

verus! {

/// Trusted byte buffer type: an owned value that can expose its bytes and be
/// turned into them.
///
/// Both methods must agree on one byte sequence, `spec_bytes`; this replaces
/// the informal requirement that interior mutability must not make repeated
/// reads of the buffer disagree.
pub trait Buffer: Sized {
    /// The byte content of the buffer.
    spec fn spec_bytes(&self) -> Seq<u8>;

    /// Borrows the buffer bytes.
    fn as_bytes(&self) -> (r: &[u8])
        ensures
            r@ == self.spec_bytes(),
    ;

    /// Turns this buffer into a byte array.
    fn into_bytes(self) -> (r: Vec<u8>)
        ensures
            r@ == self.spec_bytes(),
    ;
}

impl Buffer for Vec<u8> {
    open spec fn spec_bytes(&self) -> Seq<u8> {
        self@
    }

    fn as_bytes(&self) -> (r: &[u8]) {
        self.as_slice()
    }

    fn into_bytes(self) -> (r: Vec<u8>) {
        self
    }
}

impl Buffer for String {
    open spec fn spec_bytes(&self) -> Seq<u8> {
        encode_utf8(self@)
    }

    fn as_bytes(&self) -> (r: &[u8]) {
        self.as_str().as_bytes()
    }

    fn into_bytes(self) -> (r: Vec<u8>) {
        crate::text::string_into_bytes(self)
    }
}

/// The externally supplied validation contract of a wrapper type: one pure
/// predicate over byte sequences, exposed both over raw bytes and over text.
///
/// The borrowed wrapper views every accepted byte sequence as text, so an
/// implementation must show that acceptance implies well-formed UTF-8; this
/// also makes the byte-level and text-level entry points consistent with each
/// other by construction.
pub trait Validator {
    /// Which byte sequences the wrapper type accepts.
    spec fn spec_valid(bytes: Seq<u8>) -> bool;

    /// Every accepted byte sequence is well-formed UTF-8.
    proof fn accepted_implies_utf8(bytes: Seq<u8>)
        requires
            Self::spec_valid(bytes),
        ensures
            valid_utf8(bytes),
    ;

    /// Decides validity of a raw byte sequence.
    fn validate_bytes(input: &[u8]) -> (r: bool)
        ensures
            r == Self::spec_valid(input@),
    ;

    /// Decides validity of a string slice, judged by its UTF-8 encoding.
    fn validate_str(input: &str) -> (r: bool)
        ensures
            r == Self::spec_valid(input.spec_bytes()),
    ;
}

} // verus!
