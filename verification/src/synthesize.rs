//! The synthesis engine: turns a resolved configuration into the exact
//! sequence of artifacts that the wrapper type and its optional owned
//! companion receive. The emission order is part of the contract.

use vstd::prelude::*;

use crate::artifact::{
    AccessorKind, Artifact, ArtifactV, Capability, CmpPolicy, ConvSource, CtorInput, CtorShape,
    Host, artifact_views,
};
use crate::config::{
    Derive, ForeignOptions, ForeignV, Options, OptionsV, OwnedTypeOptions, OwnedV, TypeRef,
    type_ref_views,
};

verus! {

broadcast use Seq::group_seq_extra;

/// The constructor family of the borrowed wrapper, shaped by the
/// fallible/infallible duality: in fallible mode an error carrier and three
/// validating constructors with two unchecked paths; in infallible mode
/// three direct constructors, of which only the byte-sequence entry keeps a
/// failure channel, for text decoding.
pub open spec fn ctor_block_spec(infallible: bool) -> Seq<ArtifactV> {
    if !infallible {
        seq![
            ArtifactV::ErrorCarrier,
            ArtifactV::Ctor {
                host: Host::Borrowed,
                input: CtorInput::Generic,
                shape: CtorShape::ChecksValidation,
            },
            ArtifactV::Ctor {
                host: Host::Borrowed,
                input: CtorInput::Bytes,
                shape: CtorShape::ChecksValidation,
            },
            ArtifactV::Ctor {
                host: Host::Borrowed,
                input: CtorInput::Text,
                shape: CtorShape::ChecksValidation,
            },
            ArtifactV::UncheckedCtor { host: Host::Borrowed, input: CtorInput::Bytes },
            ArtifactV::UncheckedCtor { host: Host::Borrowed, input: CtorInput::Text },
            ArtifactV::RefConversion {
                host: Host::Borrowed,
                source: ConvSource::BytesRef,
                shape: CtorShape::ChecksValidation,
            },
            ArtifactV::RefConversion {
                host: Host::Borrowed,
                source: ConvSource::TextRef,
                shape: CtorShape::ChecksValidation,
            },
        ]
    } else {
        seq![
            ArtifactV::Ctor {
                host: Host::Borrowed,
                input: CtorInput::Generic,
                shape: CtorShape::Direct,
            },
            ArtifactV::Ctor {
                host: Host::Borrowed,
                input: CtorInput::Bytes,
                shape: CtorShape::ChecksDecoding,
            },
            ArtifactV::Ctor { host: Host::Borrowed, input: CtorInput::Text, shape: CtorShape::Direct },
            ArtifactV::RefConversion {
                host: Host::Borrowed,
                source: ConvSource::BytesRef,
                shape: CtorShape::ChecksDecoding,
            },
            ArtifactV::RefConversion {
                host: Host::Borrowed,
                source: ConvSource::TextRef,
                shape: CtorShape::Direct,
            },
        ]
    }
}

/// The universal items of the borrowed wrapper: the two zero-copy
/// accessors, the reference conversions, display, debug, and
/// borrow-as-character-sequence.
pub open spec fn universal_block_spec() -> Seq<ArtifactV> {
    seq![
        ArtifactV::Accessor { host: Host::Borrowed, kind: AccessorKind::AsStr },
        ArtifactV::Accessor { host: Host::Borrowed, kind: AccessorKind::AsBytes },
        ArtifactV::TraitImpl { host: Host::Borrowed, cap: Capability::AsRefWrapper },
        ArtifactV::TraitImpl { host: Host::Borrowed, cap: Capability::AsRefText },
        ArtifactV::TraitImpl { host: Host::Borrowed, cap: Capability::AsRefBytes },
        ArtifactV::TraitImpl { host: Host::Borrowed, cap: Capability::DisplayImpl },
        ArtifactV::TraitImpl { host: Host::Borrowed, cap: Capability::DebugImpl },
        ArtifactV::TraitImpl { host: Host::Borrowed, cap: Capability::BorrowText },
        ArtifactV::TraitImpl { host: Host::Borrowed, cap: Capability::RefToText },
        ArtifactV::TraitImpl { host: Host::Borrowed, cap: Capability::RefToBytes },
    ]
}

/// The transparent dereference view, unless suppressed.
pub open spec fn deref_block_spec(no_deref: bool) -> Seq<ArtifactV> {
    if no_deref {
        Seq::empty()
    } else {
        seq![ArtifactV::TraitImpl { host: Host::Borrowed, cap: Capability::DerefText }]
    }
}

/// One symmetric equality pair between the wrapper and a foreign type.
pub open spec fn eq_pair_spec(ty: Seq<char>, fallible: bool) -> ArtifactV {
    ArtifactV::ForeignEqPair {
        ty,
        policy: if fallible {
            CmpPolicy::Checked
        } else {
            CmpPolicy::Direct
        },
    }
}

/// One symmetric ordering pair between the wrapper and a foreign type.
pub open spec fn ord_pair_spec(ty: Seq<char>, fallible: bool) -> ArtifactV {
    ArtifactV::ForeignOrdPair {
        ty,
        policy: if fallible {
            CmpPolicy::Checked
        } else {
            CmpPolicy::Direct
        },
    }
}

/// The equality pairs of a list of foreign types, in order.
pub open spec fn eq_pairs_spec(tys: Seq<Seq<char>>, fallible: bool) -> Seq<ArtifactV> {
    tys.map_values(|t: Seq<char>| eq_pair_spec(t, fallible))
}

/// The ordering pairs of a list of foreign types, in order.
pub open spec fn ord_pairs_spec(tys: Seq<Seq<char>>, fallible: bool) -> Seq<ArtifactV> {
    tys.map_values(|t: Seq<char>| ord_pair_spec(t, fallible))
}

/// The foreign-comparison lattice of the borrowed wrapper: an equality pair
/// for every type under equality or ordering generation — ordering
/// presupposes equality — then an ordering pair for every type under
/// ordering generation.
pub open spec fn foreign_block_spec(f: ForeignV, infallible: bool) -> Seq<ArtifactV> {
    eq_pairs_spec(f.eq + f.ord, !infallible) + ord_pairs_spec(f.ord, !infallible)
}

/// The serialization capability of one host: encode as the character
/// sequence; decode re-validates in fallible mode and cannot fail on
/// validation grounds in infallible mode.
pub open spec fn serde_block_spec(host: Host, serde: bool, infallible: bool) -> Seq<ArtifactV> {
    if serde {
        seq![
            ArtifactV::SerializeImpl { host },
            ArtifactV::DeserializeImpl {
                host,
                shape: if infallible {
                    CtorShape::Direct
                } else {
                    CtorShape::ChecksValidation
                },
            },
        ]
    } else {
        Seq::empty()
    }
}

/// The constructor family of the owned companion, mirroring the borrowed
/// duality over owned buffer-like inputs, with the borrowing accessor and
/// the owned reference conversions.
pub open spec fn owned_ctor_block_spec(infallible: bool) -> Seq<ArtifactV> {
    if !infallible {
        seq![
            ArtifactV::Ctor {
                host: Host::Owned,
                input: CtorInput::Generic,
                shape: CtorShape::ChecksValidation,
            },
            ArtifactV::Ctor {
                host: Host::Owned,
                input: CtorInput::Bytes,
                shape: CtorShape::ChecksValidation,
            },
            ArtifactV::Ctor {
                host: Host::Owned,
                input: CtorInput::Text,
                shape: CtorShape::ChecksValidation,
            },
            ArtifactV::UncheckedCtor { host: Host::Owned, input: CtorInput::Bytes },
            ArtifactV::Accessor { host: Host::Owned, kind: AccessorKind::BorrowedView },
            ArtifactV::RefConversion {
                host: Host::Owned,
                source: ConvSource::ByteVec,
                shape: CtorShape::ChecksValidation,
            },
            ArtifactV::RefConversion {
                host: Host::Owned,
                source: ConvSource::TextBuf,
                shape: CtorShape::ChecksValidation,
            },
            ArtifactV::FromStrImpl { shape: CtorShape::ChecksValidation },
        ]
    } else {
        seq![
            ArtifactV::Ctor { host: Host::Owned, input: CtorInput::Generic, shape: CtorShape::Direct },
            ArtifactV::Ctor { host: Host::Owned, input: CtorInput::Text, shape: CtorShape::Direct },
            ArtifactV::Ctor {
                host: Host::Owned,
                input: CtorInput::Bytes,
                shape: CtorShape::ChecksDecoding,
            },
            ArtifactV::Accessor { host: Host::Owned, kind: AccessorKind::BorrowedView },
            ArtifactV::RefConversion {
                host: Host::Owned,
                source: ConvSource::ByteVec,
                shape: CtorShape::ChecksDecoding,
            },
            ArtifactV::RefConversion {
                host: Host::Owned,
                source: ConvSource::TextBuf,
                shape: CtorShape::Direct,
            },
            ArtifactV::FromStrImpl { shape: CtorShape::Direct },
        ]
    }
}

/// The unconditional items of the owned companion: delegating accessors,
/// consuming conversions, borrow and dereference capabilities, display and
/// debug, and the conversions between the owned and borrowed forms.
pub open spec fn owned_common_block_spec() -> Seq<ArtifactV> {
    seq![
        ArtifactV::Accessor { host: Host::Owned, kind: AccessorKind::AsStr },
        ArtifactV::Accessor { host: Host::Owned, kind: AccessorKind::AsBytes },
        ArtifactV::Accessor { host: Host::Owned, kind: AccessorKind::IntoString },
        ArtifactV::Accessor { host: Host::Owned, kind: AccessorKind::IntoBytes },
        ArtifactV::TraitImpl { host: Host::Owned, cap: Capability::BorrowWrapper },
        ArtifactV::TraitImpl { host: Host::Borrowed, cap: Capability::ToOwnedImpl },
        ArtifactV::TraitImpl { host: Host::Owned, cap: Capability::DerefWrapper },
        ArtifactV::TraitImpl { host: Host::Owned, cap: Capability::AsRefWrapper },
        ArtifactV::TraitImpl { host: Host::Owned, cap: Capability::AsRefText },
        ArtifactV::TraitImpl { host: Host::Owned, cap: Capability::AsRefBytes },
        ArtifactV::TraitImpl { host: Host::Owned, cap: Capability::DebugImpl },
        ArtifactV::TraitImpl { host: Host::Owned, cap: Capability::DisplayImpl },
        ArtifactV::TraitImpl { host: Host::Owned, cap: Capability::IntoText },
        ArtifactV::TraitImpl { host: Host::Owned, cap: Capability::IntoBytesConv },
    ]
}

/// The owned equality pairs of a list of foreign types.
pub open spec fn owned_eq_pairs_spec(tys: Seq<Seq<char>>) -> Seq<ArtifactV> {
    tys.map_values(|t: Seq<char>| ArtifactV::OwnedForeignEqPair { ty: t })
}

/// The owned ordering pairs of a list of foreign types.
pub open spec fn owned_ord_pairs_spec(tys: Seq<Seq<char>>) -> Seq<ArtifactV> {
    tys.map_values(|t: Seq<char>| ArtifactV::OwnedForeignOrdPair { ty: t })
}

/// The items of one requested derive-flag capability: the capability
/// itself, and for the equality and ordering capabilities the mirrored
/// foreign lattice, delegating through the borrowing accessor.
pub open spec fn derive_impl_spec(flag: Derive, f: ForeignV) -> Seq<ArtifactV> {
    seq![ArtifactV::DeriveImpl { flag }] + (match flag {
        Derive::PartialEq => owned_eq_pairs_spec(f.eq + f.ord),
        Derive::PartialOrd => owned_ord_pairs_spec(f.ord),
        _ => Seq::empty(),
    })
}

/// The items of all requested derive-flag capabilities, in the fixed
/// generation order of the capability set.
pub open spec fn derives_block_spec(list: Seq<Derive>, f: ForeignV) -> Seq<ArtifactV>
    decreases list.len(),
{
    if list.len() == 0 {
        Seq::empty()
    } else {
        derive_impl_spec(list.first(), f) + derives_block_spec(list.drop_first(), f)
    }
}

/// The unconditional part of the owned companion's artifact set: its
/// declaration, the constructor family, the unconditional items, and the
/// serialization capability if requested.
pub open spec fn owned_head_spec(owned: OwnedV, f: ForeignV, infallible: bool) -> Seq<ArtifactV> {
    seq![ArtifactV::OwnedDecl { ident: owned.ident, field_public: infallible }]
        + owned_ctor_block_spec(infallible) + owned_common_block_spec() + serde_block_spec(
        Host::Owned,
        f.serde,
        infallible,
    )
}

/// Everything the owned companion receives: its declaration, the
/// constructor family, the unconditional items, the serialization
/// capability if requested, and the requested derive-flag capabilities.
pub open spec fn owned_block_spec(owned: OwnedV, f: ForeignV, infallible: bool) -> Seq<ArtifactV> {
    owned_head_spec(owned, f, infallible) + derives_block_spec(owned.derives.spec_list(), f)
}

/// The borrowed wrapper's artifacts: constructor family, universal items,
/// and the dereference view unless suppressed.
pub open spec fn borrowed_block_spec(o: OptionsV) -> Seq<ArtifactV> {
    ctor_block_spec(o.infallible) + universal_block_spec() + deref_block_spec(o.no_deref)
}

/// The complete artifact set of one wrapper-type declaration.
pub open spec fn synthesize_spec(o: OptionsV) -> Seq<ArtifactV> {
    borrowed_block_spec(o) + foreign_block_spec(o.foreign, o.infallible) + serde_block_spec(
        Host::Borrowed,
        o.foreign.serde,
        o.infallible,
    ) + (match o.owned {
        Some(ow) => owned_block_spec(ow, o.foreign, o.infallible),
        None => Seq::empty(),
    })
}

impl Clone for TypeRef {
    fn clone(&self) -> (r: Self)
        ensures
            r@ == self@,
    {
        TypeRef { path: self.path.clone() }
    }
}

/// Emits the borrowed wrapper's artifacts.
pub fn synthesize_borrowed(options: &Options) -> (r: Vec<Artifact>)
    ensures
        artifact_views(r@) == borrowed_block_spec(options@),
{
    let mut out: Vec<Artifact> = Vec::new();
    if !options.infallible {
        out.push(Artifact::ErrorCarrier);
        out.push(
            Artifact::Ctor {
                host: Host::Borrowed,
                input: CtorInput::Generic,
                shape: CtorShape::ChecksValidation,
            },
        );
        out.push(
            Artifact::Ctor {
                host: Host::Borrowed,
                input: CtorInput::Bytes,
                shape: CtorShape::ChecksValidation,
            },
        );
        out.push(
            Artifact::Ctor {
                host: Host::Borrowed,
                input: CtorInput::Text,
                shape: CtorShape::ChecksValidation,
            },
        );
        out.push(Artifact::UncheckedCtor { host: Host::Borrowed, input: CtorInput::Bytes });
        out.push(Artifact::UncheckedCtor { host: Host::Borrowed, input: CtorInput::Text });
        out.push(
            Artifact::RefConversion {
                host: Host::Borrowed,
                source: ConvSource::BytesRef,
                shape: CtorShape::ChecksValidation,
            },
        );
        out.push(
            Artifact::RefConversion {
                host: Host::Borrowed,
                source: ConvSource::TextRef,
                shape: CtorShape::ChecksValidation,
            },
        );
    } else {
        out.push(
            Artifact::Ctor {
                host: Host::Borrowed,
                input: CtorInput::Generic,
                shape: CtorShape::Direct,
            },
        );
        out.push(
            Artifact::Ctor {
                host: Host::Borrowed,
                input: CtorInput::Bytes,
                shape: CtorShape::ChecksDecoding,
            },
        );
        out.push(
            Artifact::Ctor { host: Host::Borrowed, input: CtorInput::Text, shape: CtorShape::Direct },
        );
        out.push(
            Artifact::RefConversion {
                host: Host::Borrowed,
                source: ConvSource::BytesRef,
                shape: CtorShape::ChecksDecoding,
            },
        );
        out.push(
            Artifact::RefConversion {
                host: Host::Borrowed,
                source: ConvSource::TextRef,
                shape: CtorShape::Direct,
            },
        );
    }
    proof {
        assert(artifact_views(out@) =~= ctor_block_spec(options@.infallible));
    }
    out.push(Artifact::Accessor { host: Host::Borrowed, kind: AccessorKind::AsStr });
    out.push(Artifact::Accessor { host: Host::Borrowed, kind: AccessorKind::AsBytes });
    out.push(Artifact::TraitImpl { host: Host::Borrowed, cap: Capability::AsRefWrapper });
    out.push(Artifact::TraitImpl { host: Host::Borrowed, cap: Capability::AsRefText });
    out.push(Artifact::TraitImpl { host: Host::Borrowed, cap: Capability::AsRefBytes });
    out.push(Artifact::TraitImpl { host: Host::Borrowed, cap: Capability::DisplayImpl });
    out.push(Artifact::TraitImpl { host: Host::Borrowed, cap: Capability::DebugImpl });
    out.push(Artifact::TraitImpl { host: Host::Borrowed, cap: Capability::BorrowText });
    out.push(Artifact::TraitImpl { host: Host::Borrowed, cap: Capability::RefToText });
    out.push(Artifact::TraitImpl { host: Host::Borrowed, cap: Capability::RefToBytes });
    proof {
        assert(artifact_views(out@) =~= ctor_block_spec(options@.infallible)
            + universal_block_spec());
    }
    if !options.no_deref {
        out.push(Artifact::TraitImpl { host: Host::Borrowed, cap: Capability::DerefText });
    }
    proof {
        assert(artifact_views(out@) =~= borrowed_block_spec(options@));
    }
    out
}

/// Emits one symmetric equality pair between the wrapper and a foreign
/// type, with the comparison policy of the current mode.
pub fn partial_eq_impl(ty: &TypeRef, fallible: bool) -> (r: Artifact)
    ensures
        r@ == eq_pair_spec(ty@, fallible),
{
    Artifact::ForeignEqPair {
        ty: ty.clone(),
        policy: if fallible {
            CmpPolicy::Checked
        } else {
            CmpPolicy::Direct
        },
    }
}

/// Emits one symmetric ordering pair between the wrapper and a foreign
/// type, with the comparison policy of the current mode.
pub fn partial_ord_impl(ty: &TypeRef, fallible: bool) -> (r: Artifact)
    ensures
        r@ == ord_pair_spec(ty@, fallible),
{
    Artifact::ForeignOrdPair {
        ty: ty.clone(),
        policy: if fallible {
            CmpPolicy::Checked
        } else {
            CmpPolicy::Direct
        },
    }
}

/// Emits one symmetric equality pair between the owned companion and a
/// foreign type, delegating through the borrowing accessor.
pub fn owned_partial_eq_impl(ty: &TypeRef) -> (r: Artifact)
    ensures
        r@ == (ArtifactV::OwnedForeignEqPair { ty: ty@ }),
{
    Artifact::OwnedForeignEqPair { ty: ty.clone() }
}

/// Emits one symmetric ordering pair between the owned companion and a
/// foreign type, delegating through the borrowing accessor.
pub fn owned_partial_ord_impl(ty: &TypeRef) -> (r: Artifact)
    ensures
        r@ == (ArtifactV::OwnedForeignOrdPair { ty: ty@ }),
{
    Artifact::OwnedForeignOrdPair { ty: ty.clone() }
}

/// Emits the borrowed wrapper's foreign-comparison lattice: an equality
/// pair for every type under equality or ordering generation, then an
/// ordering pair for every type under ordering generation; duplicates each
/// re-emit the pair.
pub fn synthesize_foreign_comparisons(foreign: &ForeignOptions, infallible: bool) -> (r: Vec<
    Artifact,
>)
    ensures
        artifact_views(r@) == foreign_block_spec(foreign@, infallible),
{
    let fallible = !infallible;
    let mut out: Vec<Artifact> = Vec::new();
    let n_eq = foreign.eq.len();
    let mut i: usize = 0;
    while i < n_eq
        invariant
            fallible == !infallible,
            n_eq == foreign.eq@.len(),
            i <= n_eq,
            artifact_views(out@) == eq_pairs_spec(
                type_ref_views(foreign.eq@).take(i as int),
                fallible,
            ),
        decreases n_eq - i,
    {
        let a = partial_eq_impl(&foreign.eq[i], fallible);
        out.push(a);
        proof {
            let tv = type_ref_views(foreign.eq@);
            assert(tv.take(i + 1) =~= tv.take(i as int).push(tv[i as int]));
            assert(artifact_views(out@) =~= eq_pairs_spec(tv.take(i + 1), fallible));
        }
        i += 1;
    }
    proof {
        assert(type_ref_views(foreign.eq@).take(n_eq as int) =~= type_ref_views(foreign.eq@));
    }
    let n_ord = foreign.ord.len();
    let mut j: usize = 0;
    while j < n_ord
        invariant
            fallible == !infallible,
            n_ord == foreign.ord@.len(),
            j <= n_ord,
            artifact_views(out@) == eq_pairs_spec(type_ref_views(foreign.eq@), fallible)
                + eq_pairs_spec(type_ref_views(foreign.ord@).take(j as int), fallible),
        decreases n_ord - j,
    {
        let a = partial_eq_impl(&foreign.ord[j], fallible);
        out.push(a);
        proof {
            let tv = type_ref_views(foreign.ord@);
            assert(tv.take(j + 1) =~= tv.take(j as int).push(tv[j as int]));
            assert(artifact_views(out@) =~= eq_pairs_spec(type_ref_views(foreign.eq@), fallible)
                + eq_pairs_spec(tv.take(j + 1), fallible));
        }
        j += 1;
    }
    proof {
        assert(type_ref_views(foreign.ord@).take(n_ord as int) =~= type_ref_views(foreign.ord@));
        assert(eq_pairs_spec(type_ref_views(foreign.eq@) + type_ref_views(foreign.ord@), fallible)
            =~= eq_pairs_spec(type_ref_views(foreign.eq@), fallible) + eq_pairs_spec(
            type_ref_views(foreign.ord@),
            fallible,
        ));
    }
    let mut k: usize = 0;
    while k < n_ord
        invariant
            fallible == !infallible,
            n_ord == foreign.ord@.len(),
            k <= n_ord,
            artifact_views(out@) == eq_pairs_spec(
                type_ref_views(foreign.eq@) + type_ref_views(foreign.ord@),
                fallible,
            ) + ord_pairs_spec(type_ref_views(foreign.ord@).take(k as int), fallible),
        decreases n_ord - k,
    {
        let a = partial_ord_impl(&foreign.ord[k], fallible);
        out.push(a);
        proof {
            let tv = type_ref_views(foreign.ord@);
            assert(tv.take(k + 1) =~= tv.take(k as int).push(tv[k as int]));
            assert(artifact_views(out@) =~= eq_pairs_spec(
                type_ref_views(foreign.eq@) + type_ref_views(foreign.ord@),
                fallible,
            ) + ord_pairs_spec(tv.take(k + 1), fallible));
        }
        k += 1;
    }
    proof {
        assert(type_ref_views(foreign.ord@).take(n_ord as int) =~= type_ref_views(foreign.ord@));
    }
    out
}

impl Derive {
    /// Emits the items of this derive-flag capability on the owned
    /// companion, including the mirrored foreign lattice for the equality
    /// and ordering capabilities.
    pub fn generate(&self, foreign: &ForeignOptions) -> (r: Vec<Artifact>)
        ensures
            artifact_views(r@) == derive_impl_spec(*self, foreign@),
    {
        let mut out: Vec<Artifact> = Vec::new();
        out.push(Artifact::DeriveImpl { flag: *self });
        match self {
            Derive::PartialEq => {
                let n_eq = foreign.eq.len();
                let mut i: usize = 0;
                while i < n_eq
                    invariant
                        n_eq == foreign.eq@.len(),
                        i <= n_eq,
                        artifact_views(out@) == seq![
                            ArtifactV::DeriveImpl { flag: Derive::PartialEq },
                        ] + owned_eq_pairs_spec(type_ref_views(foreign.eq@).take(i as int)),
                    decreases n_eq - i,
                {
                    let a = owned_partial_eq_impl(&foreign.eq[i]);
                    out.push(a);
                    proof {
                        let tv = type_ref_views(foreign.eq@);
                        assert(tv.take(i + 1) =~= tv.take(i as int).push(tv[i as int]));
                        assert(artifact_views(out@) =~= seq![
                            ArtifactV::DeriveImpl { flag: Derive::PartialEq },
                        ] + owned_eq_pairs_spec(tv.take(i + 1)));
                    }
                    i += 1;
                }
                let n_ord = foreign.ord.len();
                let mut j: usize = 0;
                proof {
                    assert(type_ref_views(foreign.eq@).take(foreign.eq@.len() as int)
                        =~= type_ref_views(foreign.eq@));
                }
                while j < n_ord
                    invariant
                        n_ord == foreign.ord@.len(),
                        j <= n_ord,
                        artifact_views(out@) == seq![
                            ArtifactV::DeriveImpl { flag: Derive::PartialEq },
                        ] + owned_eq_pairs_spec(type_ref_views(foreign.eq@)) + owned_eq_pairs_spec(
                            type_ref_views(foreign.ord@).take(j as int),
                        ),
                    decreases n_ord - j,
                {
                    let a = owned_partial_eq_impl(&foreign.ord[j]);
                    out.push(a);
                    proof {
                        let tv = type_ref_views(foreign.ord@);
                        assert(tv.take(j + 1) =~= tv.take(j as int).push(tv[j as int]));
                        assert(artifact_views(out@) =~= seq![
                            ArtifactV::DeriveImpl { flag: Derive::PartialEq },
                        ] + owned_eq_pairs_spec(type_ref_views(foreign.eq@)) + owned_eq_pairs_spec(
                            tv.take(j + 1),
                        ));
                    }
                    j += 1;
                }
                proof {
                    assert(type_ref_views(foreign.ord@).take(foreign.ord@.len() as int)
                        =~= type_ref_views(foreign.ord@));
                    assert(owned_eq_pairs_spec(
                        type_ref_views(foreign.eq@) + type_ref_views(foreign.ord@),
                    ) =~= owned_eq_pairs_spec(type_ref_views(foreign.eq@)) + owned_eq_pairs_spec(
                        type_ref_views(foreign.ord@),
                    ));
                    assert(artifact_views(out@) =~= derive_impl_spec(*self, foreign@));
                }
            },
            Derive::PartialOrd => {
                let n_ord = foreign.ord.len();
                let mut k: usize = 0;
                while k < n_ord
                    invariant
                        n_ord == foreign.ord@.len(),
                        k <= n_ord,
                        artifact_views(out@) == seq![
                            ArtifactV::DeriveImpl { flag: Derive::PartialOrd },
                        ] + owned_ord_pairs_spec(type_ref_views(foreign.ord@).take(k as int)),
                    decreases n_ord - k,
                {
                    let a = owned_partial_ord_impl(&foreign.ord[k]);
                    out.push(a);
                    proof {
                        let tv = type_ref_views(foreign.ord@);
                        assert(tv.take(k + 1) =~= tv.take(k as int).push(tv[k as int]));
                        assert(artifact_views(out@) =~= seq![
                            ArtifactV::DeriveImpl { flag: Derive::PartialOrd },
                        ] + owned_ord_pairs_spec(tv.take(k + 1)));
                    }
                    k += 1;
                }
                proof {
                    assert(type_ref_views(foreign.ord@).take(foreign.ord@.len() as int)
                        =~= type_ref_views(foreign.ord@));
                    assert(artifact_views(out@) =~= derive_impl_spec(*self, foreign@));
                }
            },
            _ => {
                proof {
                    assert(artifact_views(out@) =~= derive_impl_spec(*self, foreign@));
                }
            },
        }
        out
    }
}

/// Appending a capability to the list appends its items to the block.
proof fn lemma_derives_block_push(list: Seq<Derive>, x: Derive, f: ForeignV)
    ensures
        derives_block_spec(list.push(x), f) == derives_block_spec(list, f) + derive_impl_spec(x, f),
    decreases list.len(),
{
    if list.len() == 0 {
        assert(list.push(x).drop_first() =~= Seq::<Derive>::empty());
        assert(list.push(x).first() == x);
        assert(derives_block_spec(Seq::<Derive>::empty(), f) == Seq::<ArtifactV>::empty());
        assert(derives_block_spec(list, f) == Seq::<ArtifactV>::empty());
        assert(derives_block_spec(list.push(x), f) == derive_impl_spec(x, f) + derives_block_spec(
            Seq::<Derive>::empty(),
            f,
        ));
        assert(derives_block_spec(list.push(x), f) =~= derives_block_spec(list, f)
            + derive_impl_spec(x, f));
    } else {
        let rest = list.drop_first();
        let head = derive_impl_spec(list.first(), f);
        assert(list.push(x).first() == list.first());
        assert(list.push(x).drop_first() =~= rest.push(x));
        lemma_derives_block_push(rest, x, f);
        assert(derives_block_spec(list.push(x), f) == head + derives_block_spec(rest.push(x), f));
        assert(head + (derives_block_spec(rest, f) + derive_impl_spec(x, f)) =~= (head
            + derives_block_spec(rest, f)) + derive_impl_spec(x, f));
    }
}

/// Emits everything the owned companion receives; the caller invokes this
/// only when an owned companion was requested.
#[verifier::rlimit(50)]
pub fn synthesize_owned(owned: &OwnedTypeOptions, foreign: &ForeignOptions, infallible: bool) -> (r:
    Vec<Artifact>)
    ensures
        artifact_views(r@) == owned_block_spec(owned@, foreign@, infallible),
{
    let mut out: Vec<Artifact> = Vec::new();
    out.push(Artifact::OwnedDecl { ident: owned.ident.clone(), field_public: infallible });
    if !infallible {
        out.push(
            Artifact::Ctor {
                host: Host::Owned,
                input: CtorInput::Generic,
                shape: CtorShape::ChecksValidation,
            },
        );
        out.push(
            Artifact::Ctor {
                host: Host::Owned,
                input: CtorInput::Bytes,
                shape: CtorShape::ChecksValidation,
            },
        );
        out.push(
            Artifact::Ctor {
                host: Host::Owned,
                input: CtorInput::Text,
                shape: CtorShape::ChecksValidation,
            },
        );
        out.push(Artifact::UncheckedCtor { host: Host::Owned, input: CtorInput::Bytes });
        out.push(Artifact::Accessor { host: Host::Owned, kind: AccessorKind::BorrowedView });
        out.push(
            Artifact::RefConversion {
                host: Host::Owned,
                source: ConvSource::ByteVec,
                shape: CtorShape::ChecksValidation,
            },
        );
        out.push(
            Artifact::RefConversion {
                host: Host::Owned,
                source: ConvSource::TextBuf,
                shape: CtorShape::ChecksValidation,
            },
        );
        out.push(Artifact::FromStrImpl { shape: CtorShape::ChecksValidation });
    } else {
        out.push(
            Artifact::Ctor { host: Host::Owned, input: CtorInput::Generic, shape: CtorShape::Direct },
        );
        out.push(
            Artifact::Ctor { host: Host::Owned, input: CtorInput::Text, shape: CtorShape::Direct },
        );
        out.push(
            Artifact::Ctor {
                host: Host::Owned,
                input: CtorInput::Bytes,
                shape: CtorShape::ChecksDecoding,
            },
        );
        out.push(Artifact::Accessor { host: Host::Owned, kind: AccessorKind::BorrowedView });
        out.push(
            Artifact::RefConversion {
                host: Host::Owned,
                source: ConvSource::ByteVec,
                shape: CtorShape::ChecksDecoding,
            },
        );
        out.push(
            Artifact::RefConversion {
                host: Host::Owned,
                source: ConvSource::TextBuf,
                shape: CtorShape::Direct,
            },
        );
        out.push(Artifact::FromStrImpl { shape: CtorShape::Direct });
    }
    out.push(Artifact::Accessor { host: Host::Owned, kind: AccessorKind::AsStr });
    out.push(Artifact::Accessor { host: Host::Owned, kind: AccessorKind::AsBytes });
    out.push(Artifact::Accessor { host: Host::Owned, kind: AccessorKind::IntoString });
    out.push(Artifact::Accessor { host: Host::Owned, kind: AccessorKind::IntoBytes });
    out.push(Artifact::TraitImpl { host: Host::Owned, cap: Capability::BorrowWrapper });
    out.push(Artifact::TraitImpl { host: Host::Borrowed, cap: Capability::ToOwnedImpl });
    out.push(Artifact::TraitImpl { host: Host::Owned, cap: Capability::DerefWrapper });
    out.push(Artifact::TraitImpl { host: Host::Owned, cap: Capability::AsRefWrapper });
    out.push(Artifact::TraitImpl { host: Host::Owned, cap: Capability::AsRefText });
    out.push(Artifact::TraitImpl { host: Host::Owned, cap: Capability::AsRefBytes });
    out.push(Artifact::TraitImpl { host: Host::Owned, cap: Capability::DebugImpl });
    out.push(Artifact::TraitImpl { host: Host::Owned, cap: Capability::DisplayImpl });
    out.push(Artifact::TraitImpl { host: Host::Owned, cap: Capability::IntoText });
    out.push(Artifact::TraitImpl { host: Host::Owned, cap: Capability::IntoBytesConv });
    if foreign.serde {
        out.push(Artifact::SerializeImpl { host: Host::Owned });
        out.push(
            Artifact::DeserializeImpl {
                host: Host::Owned,
                shape: if infallible {
                    CtorShape::Direct
                } else {
                    CtorShape::ChecksValidation
                },
            },
        );
    }
    proof {
        assert(artifact_views(out@) =~= owned_head_spec(owned@, foreign@, infallible));
    }
    let list = owned.derives.to_list();
    let n = list.len();
    let mut i: usize = 0;
    proof {
        assert(artifact_views(out@) =~= owned_head_spec(owned@, foreign@, infallible)
            + derives_block_spec(list@.take(0), foreign@));
    }
    while i < n
        invariant
            n == list@.len(),
            list@ == owned.derives.spec_list(),
            i <= n,
            artifact_views(out@) == owned_head_spec(owned@, foreign@, infallible)
                + derives_block_spec(list@.take(i as int), foreign@),
        decreases n - i,
    {
        let mut part = list[i].generate(foreign);
        let ghost part_view = artifact_views(part@);
        let ghost before = out@;
        out.append(&mut part);
        proof {
            let head = owned_head_spec(owned@, foreign@, infallible);
            let block = derives_block_spec(list@.take(i as int), foreign@);
            assert(artifact_views(out@) =~= artifact_views(before) + part_view);
            assert(list@.take(i + 1) =~= list@.take(i as int).push(list@[i as int]));
            lemma_derives_block_push(list@.take(i as int), list@[i as int], foreign@);
            assert((head + block) + part_view =~= head + (block + part_view));
        }
        i += 1;
    }
    proof {
        assert(list@.take(n as int) =~= list@);
    }
    out
}

/// Runs the three synthesizers on one resolved configuration and
/// concatenates their artifact sets in the emission order.
pub fn synthesize(options: &Options) -> (r: Vec<Artifact>)
    ensures
        artifact_views(r@) == synthesize_spec(options@),
{
    let mut out = synthesize_borrowed(options);
    let mut foreign_part = synthesize_foreign_comparisons(&options.foreign, options.infallible);
    out.append(&mut foreign_part);
    if options.foreign.serde {
        out.push(Artifact::SerializeImpl { host: Host::Borrowed });
        out.push(
            Artifact::DeserializeImpl {
                host: Host::Borrowed,
                shape: if options.infallible {
                    CtorShape::Direct
                } else {
                    CtorShape::ChecksValidation
                },
            },
        );
    }
    proof {
        assert(artifact_views(out@) =~= borrowed_block_spec(options@) + foreign_block_spec(
            options@.foreign,
            options@.infallible,
        ) + serde_block_spec(Host::Borrowed, options@.foreign.serde, options@.infallible));
    }
    match &options.owned {
        Some(owned) => {
            let mut owned_part = synthesize_owned(owned, &options.foreign, options.infallible);
            out.append(&mut owned_part);
        },
        None => {
        },
    }
    proof {
        assert(artifact_views(out@) =~= synthesize_spec(options@));
    }
    out
}

} // verus!
