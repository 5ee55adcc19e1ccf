//! The owned companion type: an owned buffer guaranteed always valid, whose
//! derived operations all delegate through a freshly computed borrowed view.

use core::marker::PhantomData;

use vstd::prelude::*;
use vstd::string::StringSliceAdditionalSpecFns;
use vstd::utf8::{decode_utf8, encode_utf8, valid_utf8};

use crate::borrowed::{CheckedStr, DecodeError, ValidationError};
use crate::text::{lex_cmp, str_eq, vec_into_string};
use crate::validate::{Buffer, Validator};
use crate::Comparison;

verus! {

/// A validated owned string: an owned buffer whose UTF-8 encoding satisfies
/// the validation predicate `V` at all times.
#[derive(Debug)]
pub struct CheckedString<V> {
    data: String,
    validator: PhantomData<V>,
}

impl<V> View for CheckedString<V> {
    type V = Seq<char>;

    closed spec fn view(&self) -> Seq<char> {
        self.data@
    }
}

impl<V> Clone for CheckedString<V> {
    fn clone(&self) -> (r: Self)
        ensures
            r@ == self@,
    {
        CheckedString { data: self.data.clone(), validator: PhantomData }
    }
}

impl<V: Validator> CheckedString<V> {
    /// The UTF-8 encoding of the owned text.
    pub open spec fn spec_bytes(self) -> Seq<u8> {
        encode_utf8(self@)
    }

    /// Validity invariant: the stored buffer satisfies the validation
    /// predicate. Every constructor establishes it and no operation breaks
    /// it, so the borrowing accessor may skip validation.
    pub open spec fn wf(self) -> bool {
        V::spec_valid(self.spec_bytes())
    }

    /// Creates a new owned value by checking the bytes of a trusted buffer;
    /// a rejected input is handed back inside the error.
    pub fn new<T: Buffer>(input: T) -> (r: Result<Self, ValidationError<T>>)
        ensures
            r is Ok <==> V::spec_valid(input.spec_bytes()),
            r matches Ok(w) ==> w.wf() && w.spec_bytes() == input.spec_bytes(),
            r matches Err(e) ==> e.0 == input,
    {
        if V::validate_bytes(input.as_bytes()) {
            proof {
                V::accepted_implies_utf8(input.spec_bytes());
            }
            let bytes = input.into_bytes();
            match vec_into_string(bytes) {
                Some(s) => Ok(CheckedString { data: s, validator: PhantomData }),
                None => {
                    proof {
                        assert(false);
                    }
                    Ok(CheckedString { data: String::new(), validator: PhantomData })
                },
            }
        } else {
            Err(ValidationError(input))
        }
    }

    /// Creates a new owned value by checking raw bytes.
    pub fn from_bytes(input: Vec<u8>) -> (r: Result<Self, ValidationError<Vec<u8>>>)
        ensures
            r is Ok <==> V::spec_valid(input@),
            r matches Ok(w) ==> w.wf() && w.spec_bytes() == input@,
            r matches Err(e) ==> e.0 == input,
    {
        Self::new(input)
    }

    /// Creates a new owned value by checking an owned string.
    pub fn from_string(input: String) -> (r: Result<Self, ValidationError<String>>)
        ensures
            r is Ok <==> V::spec_valid(encode_utf8(input@)),
            r matches Ok(w) ==> w.wf() && w@ == input@,
            r matches Err(e) ==> e.0 == input,
    {
        let r = Self::new(input);
        proof {
            broadcast use vstd::utf8::encode_utf8_decode_utf8;

            if let Ok(ref w) = r {
                assert(decode_utf8(encode_utf8(w@)) == w@);
                assert(decode_utf8(encode_utf8(input@)) == input@);
            }
        }
        r
    }

    /// Wraps raw bytes already known to be valid.
    pub fn new_unchecked(input: Vec<u8>) -> (r: Self)
        requires
            V::spec_valid(input@),
        ensures
            r.wf(),
            r.spec_bytes() == input@,
    {
        proof {
            V::accepted_implies_utf8(input@);
        }
        match vec_into_string(input) {
            Some(s) => CheckedString { data: s, validator: PhantomData },
            None => {
                proof {
                    assert(false);
                }
                CheckedString { data: String::new(), validator: PhantomData }
            },
        }
    }

    /// Infallible-mode generic constructor: under the assumption that the
    /// predicate accepts the input, stores it directly.
    pub fn new_infallible(input: String) -> (r: Self)
        requires
            V::spec_valid(encode_utf8(input@)),
        ensures
            r.wf(),
            r@ == input@,
    {
        CheckedString { data: input, validator: PhantomData }
    }

    /// Infallible-mode text constructor: stores the string with no failure
    /// channel.
    pub fn from_string_infallible(input: String) -> (r: Self)
        requires
            V::spec_valid(encode_utf8(input@)),
        ensures
            r.wf(),
            r@ == input@,
    {
        CheckedString { data: input, validator: PhantomData }
    }

    /// Infallible-mode byte constructor: may still fail when the bytes are
    /// not well-formed text, signalled by the decoding error kind.
    pub fn from_bytes_infallible(input: Vec<u8>) -> (r: Result<Self, DecodeError>)
        requires
            valid_utf8(input@) ==> V::spec_valid(input@),
        ensures
            r is Ok <==> valid_utf8(input@),
            r matches Ok(w) ==> w.wf() && w.spec_bytes() == input@,
    {
        match vec_into_string(input) {
            Some(s) => Ok(CheckedString { data: s, validator: PhantomData }),
            None => Err(DecodeError),
        }
    }

    /// The borrowing accessor: a fresh validated view of the stored buffer,
    /// computed on every call through the unchecked construction path; this
    /// is sound because the invariant guarantees validity at all times.
    pub fn as_checked_str(&self) -> (r: CheckedStr<'_, V>)
        requires
            self.wf(),
        ensures
            r.wf(),
            r@ == self@,
            r.spec_bytes() == self.spec_bytes(),
    {
        CheckedStr::new_unchecked(self.data.as_str())
    }

    /// Returns the value as a string slice.
    pub fn as_str(&self) -> (r: &str)
        ensures
            r@ == self@,
            r.spec_bytes() == self.spec_bytes(),
    {
        self.data.as_str()
    }

    /// Returns the value as a byte slice.
    pub fn as_bytes(&self) -> (r: &[u8])
        ensures
            r@ == self.spec_bytes(),
    {
        self.data.as_str().as_bytes()
    }

    /// Consumes the value into its owned string.
    pub fn into_string(self) -> (r: String)
        ensures
            r@ == self@,
    {
        self.data
    }

    /// Consumes the value into its owned bytes.
    pub fn into_bytes(self) -> (r: Vec<u8>)
        ensures
            r@ == self.spec_bytes(),
    {
        crate::text::string_into_bytes(self.data)
    }

    /// The display and debug rendering, delegating through the borrowing
    /// accessor: the stored text, verbatim.
    pub fn to_text(&self) -> (r: String)
        requires
            self.wf(),
        ensures
            r@ == self@,
    {
        self.as_checked_str().to_text()
    }

    /// Equality against the borrowed wrapper type, delegating through the
    /// borrowing accessor.
    pub fn eq_borrowed(&self, other: &CheckedStr<'_, V>) -> (r: bool)
        requires
            self.wf(),
        ensures
            r == (self@ == other@),
    {
        let s = self.as_checked_str();
        s == *other
    }

    /// Total order against another owned value, delegating through the
    /// borrowing accessor.
    pub fn cmp_with(&self, other: &Self) -> (r: Comparison)
        requires
            self.wf(),
            other.wf(),
        ensures
            r == lex_cmp(self.spec_bytes(), other.spec_bytes()),
    {
        self.as_checked_str().cmp_with(&other.as_checked_str())
    }

    /// Ordering against the borrowed wrapper type, delegating through the
    /// borrowing accessor.
    pub fn cmp_borrowed(&self, other: &CheckedStr<'_, V>) -> (r: Comparison)
        requires
            self.wf(),
        ensures
            r == lex_cmp(self.spec_bytes(), other.spec_bytes()),
    {
        self.as_checked_str().cmp_with(other)
    }

    /// Equality against a foreign value under the fallible policy,
    /// delegating through the borrowing accessor.
    pub fn eq_foreign<T: Buffer>(&self, other: &T) -> (r: bool)
        requires
            self.wf(),
        ensures
            r == (V::spec_valid(other.spec_bytes()) && self.spec_bytes() == other.spec_bytes()),
    {
        self.as_checked_str().eq_foreign(other)
    }

    /// Ordering against a foreign value under the fallible policy,
    /// delegating through the borrowing accessor.
    pub fn cmp_foreign<T: Buffer>(&self, other: &T) -> (r: Option<Comparison>)
        requires
            self.wf(),
        ensures
            V::spec_valid(other.spec_bytes()) ==> r == Some(
                lex_cmp(self.spec_bytes(), other.spec_bytes()),
            ),
            !V::spec_valid(other.spec_bytes()) ==> r is None,
    {
        self.as_checked_str().cmp_foreign(other)
    }

    /// The byte sequence that the hashing capability feeds to the hasher:
    /// hashing delegates to the borrowed view obtained from the borrowing
    /// accessor, the same view that equality compares.
    pub open spec fn spec_hash_input(self) -> Seq<u8> {
        self.spec_bytes()
    }
}

impl<V: Validator> PartialEq for CheckedString<V> {
    /// Value equality of two owned values: equality of the stored text, as
    /// the generated capability decides it by delegating both sides through
    /// the borrowing accessor.
    fn eq(&self, other: &Self) -> (r: bool) {
        str_eq(self.data.as_str(), other.data.as_str())
    }
}

impl<V: Validator> vstd::std_specs::cmp::PartialEqSpecImpl for CheckedString<V> {
    open spec fn obeys_eq_spec() -> bool {
        true
    }

    open spec fn eq_spec(&self, other: &Self) -> bool {
        self@ == other@
    }
}

impl<V: Validator> Eq for CheckedString<V> {

}

impl<'a, V: Validator> CheckedStr<'a, V> {
    /// Copies this validated view into owned storage.
    pub fn to_owned(&self) -> (r: CheckedString<V>)
        requires
            self.wf(),
        ensures
            r.wf(),
            r@ == self@,
            r.spec_bytes() == self.spec_bytes(),
    {
        proof {
            self.lemma_view_bytes();
        }
        let s: String = self.as_str().to_owned();
        CheckedString { data: s, validator: PhantomData }
    }
}

/// Hash–equality consistency of the owned capabilities: owned values that
/// compare equal present identical byte sequences to the hasher, because
/// equality and hashing both delegate to the borrowing accessor's view of
/// the same buffer.
pub proof fn lemma_hash_eq_consistency<V: Validator>(a: CheckedString<V>, b: CheckedString<V>)
    requires
        a@ == b@,
    ensures
        a.spec_hash_input() == b.spec_hash_input(),
{
}

} // verus!
