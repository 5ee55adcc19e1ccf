//! Behaviour of the synthesis engine: which artifacts a configuration
//! produces, in which order, and how the fallible/infallible duality and
//! the foreign-comparison lattice shape the set.

use str_newtype::artifact::{
    AccessorKind, Artifact, Capability, CmpPolicy, ConvSource, CtorInput, CtorShape, Host,
};
use str_newtype::config::{
    Attribute, Derive, Options, OwnedTypeAttribute, TypeRef, resolve,
};
use str_newtype::synthesize::{
    synthesize, synthesize_borrowed, synthesize_foreign_comparisons, synthesize_owned,
};

fn ty(name: &str) -> TypeRef {
    TypeRef { path: name.to_owned() }
}

fn config(frags: Vec<Attribute>) -> Options {
    resolve(frags).unwrap()
}

#[test]
fn fallible_constructor_family() {
    let options = config(Vec::new());
    let artifacts = synthesize_borrowed(&options);
    assert_eq!(artifacts[0], Artifact::ErrorCarrier);
    assert_eq!(
        artifacts[1],
        Artifact::Ctor {
            host: Host::Borrowed,
            input: CtorInput::Generic,
            shape: CtorShape::ChecksValidation,
        }
    );
    assert_eq!(
        artifacts[2],
        Artifact::Ctor {
            host: Host::Borrowed,
            input: CtorInput::Bytes,
            shape: CtorShape::ChecksValidation,
        }
    );
    assert_eq!(
        artifacts[3],
        Artifact::Ctor {
            host: Host::Borrowed,
            input: CtorInput::Text,
            shape: CtorShape::ChecksValidation,
        }
    );
    assert_eq!(
        artifacts[4],
        Artifact::UncheckedCtor { host: Host::Borrowed, input: CtorInput::Bytes }
    );
    assert_eq!(
        artifacts[5],
        Artifact::UncheckedCtor { host: Host::Borrowed, input: CtorInput::Text }
    );
    // the dereference view is emitted last, since nothing suppressed it
    assert_eq!(
        artifacts.last().unwrap(),
        &Artifact::TraitImpl { host: Host::Borrowed, cap: Capability::DerefText }
    );
}

#[test]
fn infallible_mode_has_no_error_carrier_and_decoding_byte_path() {
    let options = config(vec![Attribute::Infallible]);
    let artifacts = synthesize(&options);
    assert!(!artifacts.contains(&Artifact::ErrorCarrier));
    assert!(artifacts.contains(&Artifact::Ctor {
        host: Host::Borrowed,
        input: CtorInput::Bytes,
        shape: CtorShape::ChecksDecoding,
    }));
    assert!(artifacts.contains(&Artifact::Ctor {
        host: Host::Borrowed,
        input: CtorInput::Text,
        shape: CtorShape::Direct,
    }));
    for a in &artifacts {
        let shape = match a {
            Artifact::Ctor { shape, .. } => Some(shape),
            Artifact::RefConversion { shape, .. } => Some(shape),
            Artifact::FromStrImpl { shape } => Some(shape),
            Artifact::DeserializeImpl { shape, .. } => Some(shape),
            _ => None,
        };
        if let Some(shape) = shape {
            assert_ne!(shape, &CtorShape::ChecksValidation);
        }
    }
}

#[test]
fn no_deref_suppresses_the_dereference_view() {
    let options = config(vec![Attribute::NoDeref]);
    let artifacts = synthesize(&options);
    assert!(!artifacts.contains(&Artifact::TraitImpl {
        host: Host::Borrowed,
        cap: Capability::DerefText,
    }));
}

#[test]
fn ordering_generation_also_emits_an_equality_pair() {
    let options = config(vec![Attribute::Ord(vec![ty("str")])]);
    let artifacts = synthesize(&options);
    assert!(artifacts.contains(&Artifact::ForeignEqPair {
        ty: ty("str"),
        policy: CmpPolicy::Checked,
    }));
    assert!(artifacts.contains(&Artifact::ForeignOrdPair {
        ty: ty("str"),
        policy: CmpPolicy::Checked,
    }));
}

#[test]
fn equality_pairs_precede_ordering_pairs_over_the_chained_list() {
    let options = config(vec![
        Attribute::Eq(vec![ty("str")]),
        Attribute::Ord(vec![ty("String")]),
    ]);
    let artifacts = synthesize_foreign_comparisons(&options.foreign, options.infallible);
    assert_eq!(
        artifacts,
        vec![
            Artifact::ForeignEqPair { ty: ty("str"), policy: CmpPolicy::Checked },
            Artifact::ForeignEqPair { ty: ty("String"), policy: CmpPolicy::Checked },
            Artifact::ForeignOrdPair { ty: ty("String"), policy: CmpPolicy::Checked },
        ]
    );
}

#[test]
fn duplicate_foreign_types_re_emit_their_pairs() {
    let options = config(vec![Attribute::Eq(vec![ty("str"), ty("str")])]);
    let artifacts = synthesize_foreign_comparisons(&options.foreign, options.infallible);
    assert_eq!(
        artifacts,
        vec![
            Artifact::ForeignEqPair { ty: ty("str"), policy: CmpPolicy::Checked },
            Artifact::ForeignEqPair { ty: ty("str"), policy: CmpPolicy::Checked },
        ]
    );
}

#[test]
fn infallible_comparisons_use_the_direct_policy() {
    let options = config(vec![
        Attribute::Infallible,
        Attribute::Eq(vec![ty("str")]),
    ]);
    let artifacts = synthesize_foreign_comparisons(&options.foreign, options.infallible);
    assert_eq!(
        artifacts,
        vec![Artifact::ForeignEqPair { ty: ty("str"), policy: CmpPolicy::Direct }]
    );
}

#[test]
fn owned_declaration_field_visible_only_in_infallible_mode() {
    let fallible = config(vec![Attribute::Owned(vec![OwnedTypeAttribute::Ident(
        "Buf".to_owned(),
    )])]);
    let artifacts = synthesize(&fallible);
    assert!(artifacts.contains(&Artifact::OwnedDecl {
        ident: "Buf".to_owned(),
        field_public: false,
    }));
    let infallible = config(vec![
        Attribute::Infallible,
        Attribute::Owned(vec![OwnedTypeAttribute::Ident("Buf".to_owned())]),
    ]);
    let artifacts = synthesize(&infallible);
    assert!(artifacts.contains(&Artifact::OwnedDecl {
        ident: "Buf".to_owned(),
        field_public: true,
    }));
}

#[test]
fn absent_owned_spec_produces_no_owned_artifacts() {
    let options = config(Vec::new());
    let artifacts = synthesize(&options);
    for a in &artifacts {
        match a {
            Artifact::OwnedDecl { .. } => panic!("owned declaration without a request"),
            Artifact::Ctor { host, .. } => assert_eq!(host, &Host::Borrowed),
            Artifact::Accessor { host, .. } => assert_eq!(host, &Host::Borrowed),
            _ => {}
        }
    }
}

#[test]
fn owned_constructor_family_mirrors_the_duality() {
    let options = config(vec![Attribute::Owned(vec![OwnedTypeAttribute::Ident(
        "Buf".to_owned(),
    )])]);
    let artifacts = synthesize_owned(options.owned.as_ref().unwrap(), &options.foreign, false);
    assert_eq!(
        artifacts[0],
        Artifact::OwnedDecl { ident: "Buf".to_owned(), field_public: false }
    );
    assert_eq!(
        artifacts[1],
        Artifact::Ctor {
            host: Host::Owned,
            input: CtorInput::Generic,
            shape: CtorShape::ChecksValidation,
        }
    );
    assert!(artifacts.contains(&Artifact::UncheckedCtor {
        host: Host::Owned,
        input: CtorInput::Bytes,
    }));
    assert!(artifacts.contains(&Artifact::Accessor {
        host: Host::Owned,
        kind: AccessorKind::BorrowedView,
    }));
    assert!(artifacts.contains(&Artifact::FromStrImpl { shape: CtorShape::ChecksValidation }));
    assert!(artifacts.contains(&Artifact::RefConversion {
        host: Host::Owned,
        source: ConvSource::ByteVec,
        shape: CtorShape::ChecksValidation,
    }));
}

#[test]
fn owned_equality_flag_mirrors_the_foreign_lattice() {
    let options = config(vec![
        Attribute::Eq(vec![ty("str")]),
        Attribute::Ord(vec![ty("String")]),
        Attribute::Owned(vec![
            OwnedTypeAttribute::Ident("Buf".to_owned()),
            OwnedTypeAttribute::Derive(vec!["PartialEq".to_owned(), "PartialOrd".to_owned()]),
        ]),
    ]);
    let artifacts = synthesize(&options);
    assert!(artifacts.contains(&Artifact::DeriveImpl { flag: Derive::PartialEq }));
    assert!(artifacts.contains(&Artifact::OwnedForeignEqPair { ty: ty("str") }));
    assert!(artifacts.contains(&Artifact::OwnedForeignEqPair { ty: ty("String") }));
    assert!(artifacts.contains(&Artifact::DeriveImpl { flag: Derive::PartialOrd }));
    assert!(artifacts.contains(&Artifact::OwnedForeignOrdPair { ty: ty("String") }));
    assert!(!artifacts.contains(&Artifact::OwnedForeignOrdPair { ty: ty("str") }));
}

#[test]
fn hash_flag_emits_only_the_delegating_capability() {
    let options = config(vec![Attribute::Owned(vec![
        OwnedTypeAttribute::Ident("Buf".to_owned()),
        OwnedTypeAttribute::Derive(vec!["Hash".to_owned()]),
    ])]);
    let artifacts = synthesize(&options);
    assert!(artifacts.contains(&Artifact::DeriveImpl { flag: Derive::Hash }));
    assert!(!artifacts.contains(&Artifact::DeriveImpl { flag: Derive::PartialEq }));
}

#[test]
fn serde_flag_gives_both_hosts_a_serialization_path() {
    let options = config(vec![
        Attribute::Serde,
        Attribute::Owned(vec![OwnedTypeAttribute::Ident("Buf".to_owned())]),
    ]);
    let artifacts = synthesize(&options);
    assert!(artifacts.contains(&Artifact::SerializeImpl { host: Host::Borrowed }));
    assert!(artifacts.contains(&Artifact::SerializeImpl { host: Host::Owned }));
    assert!(artifacts.contains(&Artifact::DeserializeImpl {
        host: Host::Borrowed,
        shape: CtorShape::ChecksValidation,
    }));
    assert!(artifacts.contains(&Artifact::DeserializeImpl {
        host: Host::Owned,
        shape: CtorShape::ChecksValidation,
    }));
}
