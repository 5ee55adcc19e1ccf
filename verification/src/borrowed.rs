//! The borrowed wrapper type: a validated view of a string slice, together
//! with the error carrier returned by the fallible constructor family.

use core::marker::PhantomData;

use vstd::prelude::*;
use vstd::string::StringSliceAdditionalSpecFns;
use vstd::utf8::{decode_utf8, encode_utf8, valid_utf8};

use crate::text::{bytes_as_str, bytes_cmp, bytes_eq, lex_cmp, str_eq};
use crate::validate::{Buffer, Validator};
use crate::Comparison;

verus! {

/// Error carrier of the fallible constructor family: holds the original
/// rejected input so that callers can report or reuse it.
#[derive(Debug, Clone, Copy, PartialEq, Eq)]
pub struct ValidationError<T>(pub T);

impl ValidationError<String> {
    /// The rendering of this error: `"invalid {name}: {payload}"`, where
    /// `name` is the configured display name of the wrapper type.
    pub fn message(&self, name: &str) -> (r: String)
        ensures
            r@ == "invalid "@ + name@ + ": "@ + self.0@,
    {
        let mut out = "invalid ".to_owned();
        out.append(name);
        out.append(": ");
        out.append(self.0.as_str());
        out
    }
}

/// Error of the byte-sequence entry points of infallible mode: the input is
/// not well-formed text. Distinct from `ValidationError` by design.
#[derive(Debug, Clone, Copy, PartialEq, Eq, Structural)]
pub struct DecodeError;

/// A validated borrowed string: a string slice whose UTF-8 encoding satisfies
/// the validation predicate `V`.
#[derive(Debug)]
pub struct CheckedStr<'a, V> {
    data: &'a str,
    validator: PhantomData<V>,
}

impl<'a, V> View for CheckedStr<'a, V> {
    type V = Seq<char>;

    closed spec fn view(&self) -> Seq<char> {
        self.data@
    }
}

impl<'a, V> Clone for CheckedStr<'a, V> {
    fn clone(&self) -> (r: Self)
        ensures
            r == *self,
    {
        CheckedStr { data: self.data, validator: PhantomData }
    }
}

impl<'a, V> Copy for CheckedStr<'a, V> {

}

impl<'a, V: Validator> CheckedStr<'a, V> {
    /// The UTF-8 encoding of the wrapped text.
    pub closed spec fn spec_bytes(self) -> Seq<u8> {
        self.data.spec_bytes()
    }

    /// Validity invariant: the wrapped bytes satisfy the validation predicate.
    pub open spec fn wf(self) -> bool {
        V::spec_valid(self.spec_bytes())
    }

    /// The byte view is the UTF-8 encoding of the character view.
    pub proof fn lemma_view_bytes(self)
        ensures
            self.spec_bytes() == encode_utf8(self@),
            decode_utf8(self.spec_bytes()) == self@,
    {
        broadcast use vstd::utf8::encode_utf8_decode_utf8;

    }

    /// Creates a new validated reference by checking the bytes of a generic
    /// buffer-like input; a rejected input is handed back inside the error.
    pub fn new<T: Buffer>(input: &'a T) -> (r: Result<Self, ValidationError<&'a T>>)
        ensures
            r is Ok <==> V::spec_valid(input.spec_bytes()),
            r matches Ok(w) ==> w.wf() && w.spec_bytes() == input.spec_bytes(),
            r matches Err(e) ==> e.0 == input,
    {
        let bytes = input.as_bytes();
        if V::validate_bytes(bytes) {
            proof {
                V::accepted_implies_utf8(bytes@);
            }
            match bytes_as_str(bytes) {
                Some(s) => Ok(CheckedStr { data: s, validator: PhantomData }),
                None => {
                    proof {
                        assert(false);
                    }
                    Err(ValidationError(input))
                },
            }
        } else {
            Err(ValidationError(input))
        }
    }

    /// Creates a new validated reference by checking raw bytes.
    pub fn from_bytes(input: &'a [u8]) -> (r: Result<Self, ValidationError<&'a [u8]>>)
        ensures
            r is Ok <==> V::spec_valid(input@),
            r matches Ok(w) ==> w.wf() && w.spec_bytes() == input@,
            r matches Err(e) ==> e.0 == input,
    {
        if V::validate_bytes(input) {
            proof {
                V::accepted_implies_utf8(input@);
            }
            match bytes_as_str(input) {
                Some(s) => Ok(CheckedStr { data: s, validator: PhantomData }),
                None => {
                    proof {
                        assert(false);
                    }
                    Err(ValidationError(input))
                },
            }
        } else {
            Err(ValidationError(input))
        }
    }

    /// Creates a new validated reference by checking a string slice with the
    /// text-level predicate.
    pub fn from_str(input: &'a str) -> (r: Result<Self, ValidationError<&'a str>>)
        ensures
            r is Ok <==> V::spec_valid(input.spec_bytes()),
            r matches Ok(w) ==> w.wf() && w@ == input@ && w.spec_bytes() == input.spec_bytes(),
            r matches Err(e) ==> e.0 == input,
    {
        if V::validate_str(input) {
            Ok(CheckedStr { data: input, validator: PhantomData })
        } else {
            Err(ValidationError(input))
        }
    }

    /// Wraps a string slice already known to be valid.
    pub fn new_unchecked(input: &'a str) -> (r: Self)
        requires
            V::spec_valid(input.spec_bytes()),
        ensures
            r.wf(),
            r@ == input@,
            r.spec_bytes() == input.spec_bytes(),
    {
        CheckedStr { data: input, validator: PhantomData }
    }

    /// Wraps raw bytes already known to be valid.
    pub fn new_unchecked_from_bytes(input: &'a [u8]) -> (r: Self)
        requires
            V::spec_valid(input@),
        ensures
            r.wf(),
            r.spec_bytes() == input@,
    {
        proof {
            V::accepted_implies_utf8(input@);
        }
        match bytes_as_str(input) {
            Some(s) => CheckedStr { data: s, validator: PhantomData },
            None => {
                proof {
                    assert(false);
                }
                CheckedStr { data: "", validator: PhantomData }
            },
        }
    }

    /// Infallible-mode generic constructor: under the assumption that the
    /// predicate accepts the input, wraps it directly.
    pub fn new_infallible(input: &'a str) -> (r: Self)
        requires
            V::spec_valid(input.spec_bytes()),
        ensures
            r.wf(),
            r@ == input@,
            r.spec_bytes() == input.spec_bytes(),
    {
        Self::from_str_infallible(input)
    }

    /// Infallible-mode text constructor: wraps the slice with no failure
    /// channel.
    pub fn from_str_infallible(input: &'a str) -> (r: Self)
        requires
            V::spec_valid(input.spec_bytes()),
        ensures
            r.wf(),
            r@ == input@,
            r.spec_bytes() == input.spec_bytes(),
    {
        CheckedStr { data: input, validator: PhantomData }
    }

    /// Infallible-mode byte constructor: may still fail when the bytes are
    /// not well-formed text, signalled by the decoding error kind.
    pub fn from_bytes_infallible(input: &'a [u8]) -> (r: Result<Self, DecodeError>)
        requires
            valid_utf8(input@) ==> V::spec_valid(input@),
        ensures
            r is Ok <==> valid_utf8(input@),
            r matches Ok(w) ==> w.wf() && w.spec_bytes() == input@,
    {
        match bytes_as_str(input) {
            Some(s) => Ok(CheckedStr { data: s, validator: PhantomData }),
            None => Err(DecodeError),
        }
    }

    /// Returns the value as a string slice.
    pub fn as_str(&self) -> (r: &'a str)
        ensures
            r@ == self@,
            r.spec_bytes() == self.spec_bytes(),
    {
        self.data
    }

    /// Returns the value as a byte slice.
    pub fn as_bytes(&self) -> (r: &'a [u8])
        ensures
            r@ == self.spec_bytes(),
    {
        self.data.as_bytes()
    }

    /// The display and debug rendering: the wrapped text, verbatim.
    pub fn to_text(&self) -> (r: String)
        ensures
            r@ == self@,
    {
        self.data.to_owned()
    }

    /// Total order of validated values: byte-lexicographic, which for UTF-8
    /// text coincides with code-point order.
    pub fn cmp_with(&self, other: &CheckedStr<'_, V>) -> (r: Comparison)
        ensures
            r == lex_cmp(self.spec_bytes(), other.spec_bytes()),
    {
        bytes_cmp(self.data.as_bytes(), other.data.as_bytes())
    }

    /// Equality against a foreign value under the fallible policy: the
    /// foreign bytes are validated first, and a rejected foreign value
    /// compares as not equal rather than failing. Total for every input.
    pub fn eq_foreign<T: Buffer>(&self, other: &T) -> (r: bool)
        requires
            self.wf(),
        ensures
            r == (V::spec_valid(other.spec_bytes()) && self.spec_bytes() == other.spec_bytes()),
    {
        match CheckedStr::<V>::new(other) {
            Ok(o) => {
                proof {
                    self.lemma_view_bytes();
                    o.lemma_view_bytes();
                }
                str_eq(self.data, o.data)
            },
            Err(_) => false,
        }
    }

    /// Ordering against a foreign value under the fallible policy: a foreign
    /// value that fails validation is incomparable, never an error.
    pub fn cmp_foreign<T: Buffer>(&self, other: &T) -> (r: Option<Comparison>)
        requires
            self.wf(),
        ensures
            V::spec_valid(other.spec_bytes()) ==> r == Some(
                lex_cmp(self.spec_bytes(), other.spec_bytes()),
            ),
            !V::spec_valid(other.spec_bytes()) ==> r is None,
    {
        match CheckedStr::<V>::new(other) {
            Ok(o) => Some(self.cmp_with(&o)),
            Err(_) => None,
        }
    }

    /// Equality against a foreign value under the infallible policy: the
    /// foreign value is wrapped unconditionally and compared by value.
    pub fn eq_foreign_infallible<T: Buffer>(&self, other: &T) -> (r: bool)
        requires
            self.wf(),
            V::spec_valid(other.spec_bytes()),
        ensures
            r == (self.spec_bytes() == other.spec_bytes()),
    {
        let b = other.as_bytes();
        bytes_eq(self.data.as_bytes(), b)
    }

    /// Ordering against a foreign value under the infallible policy.
    pub fn cmp_foreign_infallible<T: Buffer>(&self, other: &T) -> (r: Comparison)
        requires
            self.wf(),
            V::spec_valid(other.spec_bytes()),
        ensures
            r == lex_cmp(self.spec_bytes(), other.spec_bytes()),
    {
        let b = other.as_bytes();
        bytes_cmp(self.data.as_bytes(), b)
    }
}

/// Round trip: constructing a wrapper from bytes that the validator
/// accepts succeeds and hands back a value whose byte accessor yields
/// exactly the input bytes. The premises are what `from_bytes` ensures of
/// its result and what `as_bytes` ensures of its reading.
pub proof fn lemma_round_trip<V: Validator>(
    input: Seq<u8>,
    w: CheckedStr<'_, V>,
    readback: Seq<u8>,
)
    requires
        V::spec_valid(input),
        w.spec_bytes() == input,
        readback == w.spec_bytes(),
    ensures
        readback == input,
{
}

impl<'a, V: Validator> PartialEq for CheckedStr<'a, V> {
    /// Value equality of two validated references: equality of the wrapped
    /// text, as a field-wise derive on the generated wrapper would decide it.
    fn eq(&self, other: &Self) -> (r: bool) {
        str_eq(self.data, other.data)
    }
}

impl<'a, V: Validator> vstd::std_specs::cmp::PartialEqSpecImpl for CheckedStr<'a, V> {
    open spec fn obeys_eq_spec() -> bool {
        true
    }

    open spec fn eq_spec(&self, other: &Self) -> bool {
        self@ == other@
    }
}

impl<'a, V: Validator> Eq for CheckedStr<'a, V> {

}

} // verus!
