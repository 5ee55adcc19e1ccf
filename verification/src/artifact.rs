//! The structured artifact set that the synthesizers emit: one value per
//! generated item, describing constructors, accessors, behavioral-contract
//! implementations and comparison pairs, without committing to any textual
//! rendering.

use vstd::prelude::*;

use crate::config::Derive;

verus! {

/// Which generated type an artifact belongs to.
#[derive(Clone, Copy, Debug, PartialEq, Eq, Structural)]
pub enum Host {
    /// The borrowed wrapper type.
    Borrowed,
    /// The owned companion type.
    Owned,
}

/// Which input family a constructor accepts.
#[derive(Clone, Copy, Debug, PartialEq, Eq, Structural)]
pub enum CtorInput {
    /// A generic buffer-like or text-like input.
    Generic,
    /// Raw bytes.
    Bytes,
    /// A character sequence.
    Text,
}

/// The failure shape of a constructor-like signature.
#[derive(Clone, Copy, Debug, PartialEq, Eq, Structural)]
pub enum CtorShape {
    /// Returns the value directly; no failure channel.
    Direct,
    /// Returns the value or the validation-error carrier.
    ChecksValidation,
    /// Returns the value or the text-decoding error.
    ChecksDecoding,
}

/// The source type of a reference-conversion implementation.
#[derive(Clone, Copy, Debug, PartialEq, Eq, Structural)]
pub enum ConvSource {
    /// From a borrowed byte sequence.
    BytesRef,
    /// From a borrowed character sequence.
    TextRef,
    /// From an owned byte sequence.
    ByteVec,
    /// From an owned character sequence.
    TextBuf,
}

/// How a foreign-comparison pair treats a foreign value.
#[derive(Clone, Copy, Debug, PartialEq, Eq, Structural)]
pub enum CmpPolicy {
    /// Fallible mode: validate first; a rejected value compares as
    /// not-equal or incomparable, never as an error.
    Checked,
    /// Infallible mode: construct unconditionally and compare by value.
    Direct,
}

/// A zero-copy accessor method.
#[derive(Clone, Copy, Debug, PartialEq, Eq, Structural)]
pub enum AccessorKind {
    /// The value as a character sequence.
    AsStr,
    /// The value as a byte sequence.
    AsBytes,
    /// Consuming conversion into the owned character sequence.
    IntoString,
    /// Consuming conversion into the owned byte sequence.
    IntoBytes,
    /// The owned type's borrowing accessor: a fresh borrowed view.
    BorrowedView,
}

/// A universal behavioral-contract implementation.
#[derive(Clone, Copy, Debug, PartialEq, Eq, Structural)]
pub enum Capability {
    /// Reference conversion to the wrapper type itself.
    AsRefWrapper,
    /// Reference conversion to the underlying character sequence.
    AsRefText,
    /// Reference conversion to the underlying byte sequence.
    AsRefBytes,
    /// Display rendering: the accessor's character sequence, verbatim.
    DisplayImpl,
    /// Debug rendering: the accessor's character sequence, verbatim.
    DebugImpl,
    /// Borrow-as-character-sequence capability.
    BorrowText,
    /// The owned type's borrow-as-wrapper capability.
    BorrowWrapper,
    /// Conversion from a wrapper reference to a character-sequence reference.
    RefToText,
    /// Conversion from a wrapper reference to a byte-sequence reference.
    RefToBytes,
    /// Transparent dereference view onto the character sequence.
    DerefText,
    /// The owned type's dereference view onto the wrapper type.
    DerefWrapper,
    /// The convert-from-borrowed-to-owned capability on the wrapper type.
    ToOwnedImpl,
    /// Consuming conversion from the owned type to the character sequence.
    IntoText,
    /// Consuming conversion from the owned type to the byte sequence.
    IntoBytesConv,
}

/// One generated item.
#[derive(Debug, PartialEq, Eq)]
pub enum Artifact {
    /// The error carrier type, generic over a payload holding the rejected
    /// input, with its display, debug and error-reporting capabilities.
    ErrorCarrier,
    /// The owned companion type's declaration, cloneable, wrapping an owned
    /// character buffer; its field is visible exactly in infallible mode.
    OwnedDecl { ident: String, field_public: bool },
    /// A constructor.
    Ctor { host: Host, input: CtorInput, shape: CtorShape },
    /// An unchecked construction path, documented as requiring the caller
    /// to already know the input is valid.
    UncheckedCtor { host: Host, input: CtorInput },
    /// A reference-conversion implementation routing through a constructor.
    RefConversion { host: Host, source: ConvSource, shape: CtorShape },
    /// The owned type's parse-from-text capability.
    FromStrImpl { shape: CtorShape },
    /// An accessor method.
    Accessor { host: Host, kind: AccessorKind },
    /// A universal behavioral-contract implementation.
    TraitImpl { host: Host, cap: Capability },
    /// A symmetric equality pair between the wrapper type and a foreign type.
    ForeignEqPair { ty: crate::config::TypeRef, policy: CmpPolicy },
    /// A symmetric ordering pair between the wrapper type and a foreign
    /// type; a foreign value that fails construction is incomparable.
    ForeignOrdPair { ty: crate::config::TypeRef, policy: CmpPolicy },
    /// A symmetric equality pair between the owned type and a foreign type,
    /// delegating through the borrowing accessor.
    OwnedForeignEqPair { ty: crate::config::TypeRef },
    /// A symmetric ordering pair between the owned type and a foreign type,
    /// delegating through the borrowing accessor.
    OwnedForeignOrdPair { ty: crate::config::TypeRef },
    /// Serialization as the underlying character sequence.
    SerializeImpl { host: Host },
    /// Deserialization of a character sequence, re-validating through the
    /// ordinary constructor in fallible mode.
    DeserializeImpl { host: Host, shape: CtorShape },
    /// One of the owned type's optional derive-flag capabilities.
    DeriveImpl { flag: Derive },
}

/// Model of one generated item.
pub enum ArtifactV {
    ErrorCarrier,
    OwnedDecl { ident: Seq<char>, field_public: bool },
    Ctor { host: Host, input: CtorInput, shape: CtorShape },
    UncheckedCtor { host: Host, input: CtorInput },
    RefConversion { host: Host, source: ConvSource, shape: CtorShape },
    FromStrImpl { shape: CtorShape },
    Accessor { host: Host, kind: AccessorKind },
    TraitImpl { host: Host, cap: Capability },
    ForeignEqPair { ty: Seq<char>, policy: CmpPolicy },
    ForeignOrdPair { ty: Seq<char>, policy: CmpPolicy },
    OwnedForeignEqPair { ty: Seq<char> },
    OwnedForeignOrdPair { ty: Seq<char> },
    SerializeImpl { host: Host },
    DeserializeImpl { host: Host, shape: CtorShape },
    DeriveImpl { flag: Derive },
}

impl View for Artifact {
    type V = ArtifactV;

    open spec fn view(&self) -> ArtifactV {
        match self {
            Artifact::ErrorCarrier => ArtifactV::ErrorCarrier,
            Artifact::OwnedDecl { ident, field_public } => ArtifactV::OwnedDecl {
                ident: ident@,
                field_public: *field_public,
            },
            Artifact::Ctor { host, input, shape } => ArtifactV::Ctor {
                host: *host,
                input: *input,
                shape: *shape,
            },
            Artifact::UncheckedCtor { host, input } => ArtifactV::UncheckedCtor {
                host: *host,
                input: *input,
            },
            Artifact::RefConversion { host, source, shape } => ArtifactV::RefConversion {
                host: *host,
                source: *source,
                shape: *shape,
            },
            Artifact::FromStrImpl { shape } => ArtifactV::FromStrImpl { shape: *shape },
            Artifact::Accessor { host, kind } => ArtifactV::Accessor {
                host: *host,
                kind: *kind,
            },
            Artifact::TraitImpl { host, cap } => ArtifactV::TraitImpl { host: *host, cap: *cap },
            Artifact::ForeignEqPair { ty, policy } => ArtifactV::ForeignEqPair {
                ty: ty@,
                policy: *policy,
            },
            Artifact::ForeignOrdPair { ty, policy } => ArtifactV::ForeignOrdPair {
                ty: ty@,
                policy: *policy,
            },
            Artifact::OwnedForeignEqPair { ty } => ArtifactV::OwnedForeignEqPair { ty: ty@ },
            Artifact::OwnedForeignOrdPair { ty } => ArtifactV::OwnedForeignOrdPair { ty: ty@ },
            Artifact::SerializeImpl { host } => ArtifactV::SerializeImpl { host: *host },
            Artifact::DeserializeImpl { host, shape } => ArtifactV::DeserializeImpl {
                host: *host,
                shape: *shape,
            },
            Artifact::DeriveImpl { flag } => ArtifactV::DeriveImpl { flag: *flag },
        }
    }
}

/// The models of a sequence of artifacts.
pub open spec fn artifact_views(s: Seq<Artifact>) -> Seq<ArtifactV> {
    s.map_values(|a: Artifact| a@)
}

/// The constructor shape carried by an artifact, for the signature-bearing
/// artifact kinds.
pub open spec fn artifact_shape(a: ArtifactV) -> Option<CtorShape> {
    match a {
        ArtifactV::Ctor { shape, .. } => Some(shape),
        ArtifactV::RefConversion { shape, .. } => Some(shape),
        ArtifactV::FromStrImpl { shape } => Some(shape),
        ArtifactV::DeserializeImpl { shape, .. } => Some(shape),
        _ => None,
    }
}

} // verus!
