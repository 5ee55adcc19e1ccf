//! Behaviour of the capability resolver: merge policy, error cases, and
//! idempotence of the accumulated sets.

use str_newtype::config::{
    Attribute, ConfigError, Derive, Derives, ForeignOptions, Options, OwnedTypeAttribute, TypeRef,
    resolve,
};

fn ty(name: &str) -> TypeRef {
    TypeRef { path: name.to_owned() }
}

#[test]
fn resolve_empty_gives_defaults() {
    let options = resolve(Vec::new()).unwrap();
    assert_eq!(options.name, None);
    assert!(options.owned.is_none());
    assert_eq!(options.foreign.eq, Vec::new());
    assert_eq!(options.foreign.ord, Vec::new());
    assert!(!options.foreign.serde);
    assert!(!options.no_deref);
    assert!(!options.infallible);
}

#[test]
fn display_name_concatenates() {
    let frags = vec![
        Attribute::Name("uri ".to_owned()),
        Attribute::Name("reference".to_owned()),
    ];
    let options = resolve(frags).unwrap();
    assert_eq!(options.name, Some("uri reference".to_owned()));
}

#[test]
fn scalar_flags_set_once_stay_set() {
    let frags = vec![Attribute::Serde, Attribute::NoDeref, Attribute::Infallible];
    let options = resolve(frags).unwrap();
    assert!(options.foreign.serde);
    assert!(options.no_deref);
    assert!(options.infallible);
}

#[test]
fn foreign_lists_accumulate_with_duplicates() {
    let frags = vec![
        Attribute::Eq(vec![ty("str"), ty("String")]),
        Attribute::Ord(vec![ty("str")]),
        Attribute::Eq(vec![ty("str")]),
    ];
    let options = resolve(frags).unwrap();
    assert_eq!(options.foreign.eq, vec![ty("str"), ty("String"), ty("str")]);
    assert_eq!(options.foreign.ord, vec![ty("str")]);
}

#[test]
fn owned_fragment_collects_ident_and_derives() {
    let frags = vec![Attribute::Owned(vec![
        OwnedTypeAttribute::Ident("UriBuf".to_owned()),
        OwnedTypeAttribute::Derive(vec!["PartialEq".to_owned(), "Hash".to_owned()]),
    ])];
    let options = resolve(frags).unwrap();
    let owned = options.owned.unwrap();
    assert_eq!(owned.ident, "UriBuf".to_owned());
    assert!(owned.derives.partial_eq);
    assert!(owned.derives.hash);
    assert!(!owned.derives.eq);
    assert!(!owned.derives.default);
}

#[test]
fn owned_ident_last_write_wins_and_derives_accumulate() {
    let frags = vec![
        Attribute::Owned(vec![
            OwnedTypeAttribute::Ident("First".to_owned()),
            OwnedTypeAttribute::Derive(vec!["PartialEq".to_owned()]),
        ]),
        Attribute::Owned(vec![
            OwnedTypeAttribute::Derive(vec!["Ord".to_owned()]),
            OwnedTypeAttribute::Ident("Second".to_owned()),
        ]),
    ];
    let options = resolve(frags).unwrap();
    let owned = options.owned.unwrap();
    assert_eq!(owned.ident, "Second".to_owned());
    assert!(owned.derives.partial_eq);
    assert!(owned.derives.ord);
}

#[test]
fn unknown_derive_name_is_rejected() {
    let frags = vec![Attribute::Owned(vec![
        OwnedTypeAttribute::Ident("Buf".to_owned()),
        OwnedTypeAttribute::Derive(vec!["Display".to_owned()]),
    ])];
    assert_eq!(resolve(frags), Err(ConfigError::UnknownDerive));
}

#[test]
fn first_owned_fragment_needs_ident() {
    let frags = vec![Attribute::Owned(vec![OwnedTypeAttribute::Derive(vec![
        "PartialEq".to_owned(),
    ])])];
    assert_eq!(resolve(frags), Err(ConfigError::MissingOwnedIdent));
}

#[test]
fn later_owned_fragment_may_omit_ident() {
    let frags = vec![
        Attribute::Owned(vec![OwnedTypeAttribute::Ident("Buf".to_owned())]),
        Attribute::Owned(vec![OwnedTypeAttribute::Derive(vec!["Eq".to_owned()])]),
    ];
    let options = resolve(frags).unwrap();
    let owned = options.owned.unwrap();
    assert_eq!(owned.ident, "Buf".to_owned());
    assert!(owned.derives.eq);
}

#[test]
fn error_aborts_without_partial_merge() {
    let mut options = Options::default();
    let r = options.apply(Attribute::Owned(vec![
        OwnedTypeAttribute::Ident("Buf".to_owned()),
        OwnedTypeAttribute::Derive(vec!["Clone".to_owned()]),
    ]));
    assert_eq!(r, Err(ConfigError::UnknownDerive));
    assert!(options.owned.is_none());
}

#[test]
fn derive_parse_recognizes_the_six_capabilities() {
    assert_eq!(Derive::parse("Default"), Ok(Derive::Default));
    assert_eq!(Derive::parse("PartialEq"), Ok(Derive::PartialEq));
    assert_eq!(Derive::parse("Eq"), Ok(Derive::Eq));
    assert_eq!(Derive::parse("PartialOrd"), Ok(Derive::PartialOrd));
    assert_eq!(Derive::parse("Ord"), Ok(Derive::Ord));
    assert_eq!(Derive::parse("Hash"), Ok(Derive::Hash));
    assert_eq!(Derive::parse("Debug"), Err(ConfigError::UnknownDerive));
    assert_eq!(Derive::parse(""), Err(ConfigError::UnknownDerive));
}

#[test]
fn derives_accumulation_is_idempotent() {
    let mut derives = Derives::empty();
    derives.insert(Derive::Hash);
    derives.insert(Derive::Hash);
    let mut other = Derives::empty();
    other.insert(Derive::Hash);
    other.insert(Derive::PartialEq);
    derives.append(other);
    derives.append(other);
    assert!(derives.hash);
    assert!(derives.partial_eq);
    assert_eq!(derives.to_list(), vec![Derive::PartialEq, Derive::Hash]);
}

#[test]
fn derives_list_follows_generation_order() {
    let mut derives = Derives::empty();
    derives.insert(Derive::Hash);
    derives.insert(Derive::Default);
    derives.insert(Derive::Ord);
    derives.insert(Derive::PartialOrd);
    derives.insert(Derive::Eq);
    derives.insert(Derive::PartialEq);
    assert_eq!(
        derives.to_list(),
        vec![
            Derive::Default,
            Derive::PartialEq,
            Derive::Eq,
            Derive::PartialOrd,
            Derive::Ord,
            Derive::Hash,
        ]
    );
}

#[test]
fn configured_name_wins_over_identifier() {
    let mut options = Options::default();
    options
        .apply(Attribute::Name("uniform resource identifier".to_owned()))
        .unwrap();
    assert_eq!(options.name("Uri"), "uniform resource identifier".to_owned());
}

#[test]
fn default_name_is_lowercased_identifier() {
    let options = Options::default();
    assert_eq!(options.name("UriReference"), "urireference".to_owned());
}

#[test]
fn doubled_fragments_leave_sets_unchanged_but_double_the_name() {
    let frags = || {
        vec![
            Attribute::Name("uri".to_owned()),
            Attribute::Eq(vec![ty("str")]),
            Attribute::Ord(vec![ty("String")]),
            Attribute::Owned(vec![
                OwnedTypeAttribute::Ident("UriBuf".to_owned()),
                OwnedTypeAttribute::Derive(vec!["PartialEq".to_owned()]),
            ]),
            Attribute::Serde,
        ]
    };
    let once = resolve(frags()).unwrap();
    let mut doubled = frags();
    doubled.extend(frags());
    let twice = resolve(doubled).unwrap();
    let set = |f: &ForeignOptions| {
        let mut eq: Vec<String> = f.eq.iter().map(|t| t.path.clone()).collect();
        eq.sort();
        eq.dedup();
        let mut ord: Vec<String> = f.ord.iter().map(|t| t.path.clone()).collect();
        ord.sort();
        ord.dedup();
        (eq, ord)
    };
    assert_eq!(set(&once.foreign), set(&twice.foreign));
    let once_owned = once.owned.unwrap();
    let twice_owned = twice.owned.unwrap();
    assert_eq!(once_owned.derives, twice_owned.derives);
    assert_eq!(once_owned.ident, twice_owned.ident);
    assert_eq!(once.foreign.serde, twice.foreign.serde);
    assert_eq!(once.no_deref, twice.no_deref);
    assert_eq!(once.infallible, twice.infallible);
    assert_eq!(once.name, Some("uri".to_owned()));
    assert_eq!(twice.name, Some("uriuri".to_owned()));
}
