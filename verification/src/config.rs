//! The configuration model and the capability resolver: fragments of a
//! wrapper-type configuration, and the fold that merges them into one
//! resolved `Options` value.
//!
//! Merge policy: scalar fields follow last-write-wins, except the display
//! name, which concatenates across occurrences; sequence and set fields
//! accumulate.

use vstd::prelude::*;

use crate::text::{lower_of, str_eq};

verus! {

/// Reference to a foreign type, by its path text; opaque to the engine.
#[derive(Debug, PartialEq, Eq)]
pub struct TypeRef {
    /// The type path, as written in the configuration.
    pub path: String,
}

impl View for TypeRef {
    type V = Seq<char>;

    open spec fn view(&self) -> Seq<char> {
        self.path@
    }
}

/// One of the six capabilities that can additionally be generated on the
/// owned companion type.
#[derive(Clone, Copy, Debug, PartialEq, Eq, Structural)]
pub enum Derive {
    Default,
    PartialEq,
    Eq,
    PartialOrd,
    Ord,
    Hash,
}

/// The set of requested owned-type capabilities, as a fixed-size boolean
/// map: accumulation is idempotent and membership is constant-time.
#[derive(Clone, Copy, Debug, PartialEq, Eq, Structural)]
pub struct Derives {
    pub default: bool,
    pub partial_eq: bool,
    pub eq: bool,
    pub partial_ord: bool,
    pub ord: bool,
    pub hash: bool,
}

impl Derives {
    /// The empty capability set.
    pub open spec fn spec_empty() -> Derives {
        Derives {
            default: false,
            partial_eq: false,
            eq: false,
            partial_ord: false,
            ord: false,
            hash: false,
        }
    }

    /// The set with one more capability.
    pub open spec fn spec_insert(self, d: Derive) -> Derives {
        match d {
            Derive::Default => Derives { default: true, ..self },
            Derive::PartialEq => Derives { partial_eq: true, ..self },
            Derive::Eq => Derives { eq: true, ..self },
            Derive::PartialOrd => Derives { partial_ord: true, ..self },
            Derive::Ord => Derives { ord: true, ..self },
            Derive::Hash => Derives { hash: true, ..self },
        }
    }

    /// The union of two capability sets.
    pub open spec fn spec_union(self, other: Derives) -> Derives {
        Derives {
            default: self.default || other.default,
            partial_eq: self.partial_eq || other.partial_eq,
            eq: self.eq || other.eq,
            partial_ord: self.partial_ord || other.partial_ord,
            ord: self.ord || other.ord,
            hash: self.hash || other.hash,
        }
    }

    /// The members of the set, in the fixed generation order.
    pub open spec fn spec_list(self) -> Seq<Derive> {
        (if self.default {
            seq![Derive::Default]
        } else {
            Seq::empty()
        }) + (if self.partial_eq {
            seq![Derive::PartialEq]
        } else {
            Seq::empty()
        }) + (if self.eq {
            seq![Derive::Eq]
        } else {
            Seq::empty()
        }) + (if self.partial_ord {
            seq![Derive::PartialOrd]
        } else {
            Seq::empty()
        }) + (if self.ord {
            seq![Derive::Ord]
        } else {
            Seq::empty()
        }) + (if self.hash {
            seq![Derive::Hash]
        } else {
            Seq::empty()
        })
    }

    /// Creates the empty capability set.
    pub fn empty() -> (r: Derives)
        ensures
            r == Derives::spec_empty(),
    {
        Derives {
            default: false,
            partial_eq: false,
            eq: false,
            partial_ord: false,
            ord: false,
            hash: false,
        }
    }

    /// Adds one capability to the set; adding it again changes nothing.
    pub fn insert(&mut self, d: Derive)
        ensures
            *final(self) == old(self).spec_insert(d),
    {
        match d {
            Derive::Default => self.default = true,
            Derive::PartialEq => self.partial_eq = true,
            Derive::Eq => self.eq = true,
            Derive::PartialOrd => self.partial_ord = true,
            Derive::Ord => self.ord = true,
            Derive::Hash => self.hash = true,
        }
    }

    /// Accumulates another capability set into this one.
    pub fn append(&mut self, other: Derives)
        ensures
            *final(self) == old(self).spec_union(other),
    {
        self.default = self.default || other.default;
        self.partial_eq = self.partial_eq || other.partial_eq;
        self.eq = self.eq || other.eq;
        self.partial_ord = self.partial_ord || other.partial_ord;
        self.ord = self.ord || other.ord;
        self.hash = self.hash || other.hash;
    }

    /// Lists the members of the set, in the fixed generation order.
    pub fn to_list(&self) -> (r: Vec<Derive>)
        ensures
            r@ == self.spec_list(),
    {
        let mut out: Vec<Derive> = Vec::new();
        if self.default {
            out.push(Derive::Default);
        }
        if self.partial_eq {
            out.push(Derive::PartialEq);
        }
        if self.eq {
            out.push(Derive::Eq);
        }
        if self.partial_ord {
            out.push(Derive::PartialOrd);
        }
        if self.ord {
            out.push(Derive::Ord);
        }
        if self.hash {
            out.push(Derive::Hash);
        }
        proof {
            assert(out@ =~= self.spec_list());
        }
        out
    }
}

/// Which derive name the given text denotes, if any; exactly the six
/// recognized capability names are accepted.
pub open spec fn parse_derive_spec(name: Seq<char>) -> Option<Derive> {
    if name == "Default"@ {
        Some(Derive::Default)
    } else if name == "PartialEq"@ {
        Some(Derive::PartialEq)
    } else if name == "Eq"@ {
        Some(Derive::Eq)
    } else if name == "PartialOrd"@ {
        Some(Derive::PartialOrd)
    } else if name == "Ord"@ {
        Some(Derive::Ord)
    } else if name == "Hash"@ {
        Some(Derive::Hash)
    } else {
        None
    }
}

/// Malformed or contradictory configuration fragment; fatal to the
/// synthesis run for the declaration.
#[derive(Clone, Copy, Debug, PartialEq, Eq, Structural)]
pub enum ConfigError {
    /// An owned fragment supplies a derive name that is not one of the six
    /// recognized capabilities.
    UnknownDerive,
    /// The first owned fragment does not supply the owned type's name.
    MissingOwnedIdent,
}

impl Derive {
    /// Recognizes one of the six capability names.
    pub fn parse(name: &str) -> (r: Result<Derive, ConfigError>)
        ensures
            match parse_derive_spec(name@) {
                Some(d) => r == Ok::<Derive, ConfigError>(d),
                None => r == Err::<Derive, ConfigError>(ConfigError::UnknownDerive),
            },
    {
        if str_eq(name, "Default") {
            Ok(Derive::Default)
        } else if str_eq(name, "PartialEq") {
            Ok(Derive::PartialEq)
        } else if str_eq(name, "Eq") {
            Ok(Derive::Eq)
        } else if str_eq(name, "PartialOrd") {
            Ok(Derive::PartialOrd)
        } else if str_eq(name, "Ord") {
            Ok(Derive::Ord)
        } else if str_eq(name, "Hash") {
            Ok(Derive::Hash)
        } else {
            Err(ConfigError::UnknownDerive)
        }
    }
}

/// One sub-option of an owned fragment: the owned type's name, or a list of
/// derive names to accumulate.
#[derive(Debug, PartialEq, Eq)]
pub enum OwnedTypeAttribute {
    Ident(String),
    Derive(Vec<String>),
}

/// Model of one owned sub-option.
pub enum OwnedTypeAttributeV {
    Ident(Seq<char>),
    Derive(Seq<Seq<char>>),
}

impl View for OwnedTypeAttribute {
    type V = OwnedTypeAttributeV;

    open spec fn view(&self) -> OwnedTypeAttributeV {
        match self {
            OwnedTypeAttribute::Ident(i) => OwnedTypeAttributeV::Ident(i@),
            OwnedTypeAttribute::Derive(ns) => OwnedTypeAttributeV::Derive(
                ns@.map_values(|n: String| n@),
            ),
        }
    }
}

/// One configuration fragment.
#[derive(Debug, PartialEq, Eq)]
pub enum Attribute {
    /// Appends to the display name.
    Name(String),
    /// Requests or extends the owned companion type.
    Owned(Vec<OwnedTypeAttribute>),
    /// Foreign types that receive equality generation.
    Eq(Vec<TypeRef>),
    /// Foreign types that receive ordering generation.
    Ord(Vec<TypeRef>),
    /// Requests the serialization capability.
    Serde,
    /// Suppresses the transparent dereference view.
    NoDeref,
    /// Declares validation infallible: no error type, no failure channels.
    Infallible,
}

/// Model of one configuration fragment.
pub enum AttributeV {
    Name(Seq<char>),
    Owned(Seq<OwnedTypeAttributeV>),
    Eq(Seq<Seq<char>>),
    Ord(Seq<Seq<char>>),
    Serde,
    NoDeref,
    Infallible,
}

/// The models of a sequence of foreign type references.
pub open spec fn type_ref_views(s: Seq<TypeRef>) -> Seq<Seq<char>> {
    s.map_values(|t: TypeRef| t@)
}

/// The models of a sequence of owned sub-options.
pub open spec fn owned_attr_views(s: Seq<OwnedTypeAttribute>) -> Seq<OwnedTypeAttributeV> {
    s.map_values(|a: OwnedTypeAttribute| a@)
}

/// The models of a sequence of fragments.
pub open spec fn attr_views(s: Seq<Attribute>) -> Seq<AttributeV> {
    s.map_values(|a: Attribute| a@)
}

impl View for Attribute {
    type V = AttributeV;

    open spec fn view(&self) -> AttributeV {
        match self {
            Attribute::Name(n) => AttributeV::Name(n@),
            Attribute::Owned(items) => AttributeV::Owned(owned_attr_views(items@)),
            Attribute::Eq(tys) => AttributeV::Eq(type_ref_views(tys@)),
            Attribute::Ord(tys) => AttributeV::Ord(type_ref_views(tys@)),
            Attribute::Serde => AttributeV::Serde,
            Attribute::NoDeref => AttributeV::NoDeref,
            Attribute::Infallible => AttributeV::Infallible,
        }
    }
}

/// Options of the owned companion type: its name and its capability set.
#[derive(Debug, PartialEq, Eq)]
pub struct OwnedTypeOptions {
    pub ident: String,
    pub derives: Derives,
}

/// Model of the owned companion options.
#[verifier::ext_equal]
pub struct OwnedV {
    pub ident: Seq<char>,
    pub derives: Derives,
}

impl View for OwnedTypeOptions {
    type V = OwnedV;

    open spec fn view(&self) -> OwnedV {
        OwnedV { ident: self.ident@, derives: self.derives }
    }
}

/// Foreign-comparison and serialization options.
#[derive(Debug, PartialEq, Eq)]
pub struct ForeignOptions {
    /// Types that receive equality generation, in insertion order.
    pub eq: Vec<TypeRef>,
    /// Types that receive ordering generation, in insertion order; each also
    /// implicitly receives equality generation.
    pub ord: Vec<TypeRef>,
    /// Whether the serialization capability is requested.
    pub serde: bool,
}

/// Model of the foreign-comparison options.
#[verifier::ext_equal]
pub struct ForeignV {
    pub eq: Seq<Seq<char>>,
    pub ord: Seq<Seq<char>>,
    pub serde: bool,
}

impl View for ForeignOptions {
    type V = ForeignV;

    open spec fn view(&self) -> ForeignV {
        ForeignV { eq: type_ref_views(self.eq@), ord: type_ref_views(self.ord@), serde: self.serde }
    }
}

impl Default for ForeignOptions {
    fn default() -> (r: Self)
        ensures
            r@ == (ForeignV { eq: Seq::empty(), ord: Seq::empty(), serde: false }),
    {
        let r = ForeignOptions { eq: Vec::new(), ord: Vec::new(), serde: false };
        proof {
            assert(r@.eq =~= Seq::<Seq<char>>::empty());
            assert(r@.ord =~= Seq::<Seq<char>>::empty());
        }
        r
    }
}

/// A fully resolved configuration for one wrapper-type declaration.
#[derive(Debug, PartialEq, Eq)]
pub struct Options {
    /// Display name used in generated documentation and error text; later
    /// fragments append to it.
    pub name: Option<String>,
    /// Present exactly when an owned companion type is requested.
    pub owned: Option<OwnedTypeOptions>,
    /// Foreign-comparison and serialization options.
    pub foreign: ForeignOptions,
    /// Suppresses the transparent dereference view.
    pub no_deref: bool,
    /// No error type and no failure channels anywhere in the output.
    pub infallible: bool,
}

/// Model of a resolved configuration.
#[verifier::ext_equal]
pub struct OptionsV {
    pub name: Option<Seq<char>>,
    pub owned: Option<OwnedV>,
    pub foreign: ForeignV,
    pub no_deref: bool,
    pub infallible: bool,
}

impl View for Options {
    type V = OptionsV;

    open spec fn view(&self) -> OptionsV {
        OptionsV {
            name: match self.name {
                Some(n) => Some(n@),
                None => None,
            },
            owned: match self.owned {
                Some(o) => Some(o@),
                None => None,
            },
            foreign: self.foreign@,
            no_deref: self.no_deref,
            infallible: self.infallible,
        }
    }
}

/// The configuration that no fragment has touched yet.
pub open spec fn init_options() -> OptionsV {
    OptionsV {
        name: None,
        owned: None,
        foreign: ForeignV { eq: Seq::empty(), ord: Seq::empty(), serde: false },
        no_deref: false,
        infallible: false,
    }
}

impl Default for Options {
    fn default() -> (r: Self)
        ensures
            r@ == init_options(),
    {
        let r = Options {
            name: None,
            owned: None,
            foreign: ForeignOptions::default(),
            no_deref: false,
            infallible: false,
        };
        proof {
            assert(r@ =~= init_options());
        }
        r
    }
}

/// Whether one owned sub-option is structurally valid: every derive name it
/// supplies is recognized.
pub open spec fn owned_item_ok(item: OwnedTypeAttributeV) -> bool {
    match item {
        OwnedTypeAttributeV::Ident(_) => true,
        OwnedTypeAttributeV::Derive(ns) => forall|j: int|
            0 <= j < ns.len() ==> parse_derive_spec(#[trigger] ns[j]) is Some,
    }
}

/// Whether every owned sub-option of a fragment is structurally valid.
pub open spec fn owned_items_ok(items: Seq<OwnedTypeAttributeV>) -> bool {
    forall|i: int| 0 <= i < items.len() ==> owned_item_ok(#[trigger] items[i])
}

/// Accumulation of a list of derive names into a capability set.
pub open spec fn insert_names(acc: Derives, ns: Seq<Seq<char>>) -> Derives
    decreases ns.len(),
{
    if ns.len() == 0 {
        acc
    } else {
        let prev = insert_names(acc, ns.drop_last());
        match parse_derive_spec(ns.last()) {
            Some(d) => prev.spec_insert(d),
            None => prev,
        }
    }
}

/// What one pass over an owned fragment's sub-options collects: the last
/// name supplied, if any, and the accumulated capability set.
pub struct OwnedScan {
    pub ident: Option<Seq<char>>,
    pub derives: Derives,
}

/// Collects an owned fragment's sub-options, left to right.
pub open spec fn scan_owned_items(items: Seq<OwnedTypeAttributeV>) -> OwnedScan
    decreases items.len(),
{
    if items.len() == 0 {
        OwnedScan { ident: None, derives: Derives::spec_empty() }
    } else {
        let prev = scan_owned_items(items.drop_last());
        match items.last() {
            OwnedTypeAttributeV::Ident(i) => OwnedScan { ident: Some(i), derives: prev.derives },
            OwnedTypeAttributeV::Derive(ns) => OwnedScan {
                ident: prev.ident,
                derives: insert_names(prev.derives, ns),
            },
        }
    }
}

/// Effect of one owned fragment: the owned type's name follows
/// last-write-wins, and its capability set accumulates; the first owned
/// fragment must supply a name.
pub open spec fn apply_owned_spec(o: OptionsV, items: Seq<OwnedTypeAttributeV>) -> Result<
    OptionsV,
    ConfigError,
> {
    if !owned_items_ok(items) {
        Err(ConfigError::UnknownDerive)
    } else {
        let scan = scan_owned_items(items);
        match o.owned {
            Some(prev) => Ok(
                OptionsV {
                    owned: Some(
                        OwnedV {
                            ident: match scan.ident {
                                Some(i) => i,
                                None => prev.ident,
                            },
                            derives: prev.derives.spec_union(scan.derives),
                        },
                    ),
                    ..o
                },
            ),
            None => match scan.ident {
                Some(i) => Ok(
                    OptionsV { owned: Some(OwnedV { ident: i, derives: scan.derives }), ..o },
                ),
                None => Err(ConfigError::MissingOwnedIdent),
            },
        }
    }
}

/// Effect of one fragment on a configuration.
pub open spec fn apply_spec(o: OptionsV, a: AttributeV) -> Result<OptionsV, ConfigError> {
    match a {
        AttributeV::Name(n) => Ok(
            OptionsV {
                name: Some(
                    match o.name {
                        Some(p) => p + n,
                        None => n,
                    },
                ),
                ..o
            },
        ),
        AttributeV::Owned(items) => apply_owned_spec(o, items),
        AttributeV::Eq(tys) => Ok(
            OptionsV { foreign: ForeignV { eq: o.foreign.eq + tys, ..o.foreign }, ..o },
        ),
        AttributeV::Ord(tys) => Ok(
            OptionsV { foreign: ForeignV { ord: o.foreign.ord + tys, ..o.foreign }, ..o },
        ),
        AttributeV::Serde => Ok(OptionsV { foreign: ForeignV { serde: true, ..o.foreign }, ..o }),
        AttributeV::NoDeref => Ok(OptionsV { no_deref: true, ..o }),
        AttributeV::Infallible => Ok(OptionsV { infallible: true, ..o }),
    }
}

/// Folds a sequence of fragments into a configuration, aborting on the
/// first structurally invalid fragment.
pub open spec fn resolve_spec(o: OptionsV, attrs: Seq<AttributeV>) -> Result<OptionsV, ConfigError>
    decreases attrs.len(),
{
    if attrs.len() == 0 {
        Ok(o)
    } else {
        match apply_spec(o, attrs.first()) {
            Ok(m) => resolve_spec(m, attrs.drop_first()),
            Err(e) => Err(e),
        }
    }
}

impl Options {
    /// The display name: the configured one, or the lower-cased type
    /// identifier when no fragment supplied one.
    pub fn name(&self, ident: &str) -> (r: String)
        ensures
            match self.name {
                Some(n) => r@ == n@,
                None => r@ == lower_of(ident@),
            },
    {
        match &self.name {
            Some(n) => n.clone(),
            None => crate::text::lowercase(ident),
        }
    }

    /// Merges one fragment into this configuration; a structurally invalid
    /// fragment is rejected and leaves the configuration unchanged.
    pub fn apply(&mut self, attr: Attribute) -> (r: Result<(), ConfigError>)
        ensures
            match apply_spec(old(self)@, attr@) {
                Ok(o) => r is Ok && final(self)@ == o,
                Err(e) => r == Err::<(), ConfigError>(e) && final(self)@ == old(self)@,
            },
    {
        match attr {
            Attribute::Name(name) => {
                let mut slot: Option<String> = None;
                core::mem::swap(&mut slot, &mut self.name);
                match slot {
                    Some(mut n) => {
                        n.append(name.as_str());
                        self.name = Some(n);
                    },
                    None => {
                        self.name = Some(name);
                    },
                }
                Ok(())
            },
            Attribute::Owned(items) => self.apply_owned(items),
            Attribute::Eq(types) => {
                let mut types = types;
                let ghost prev = self.foreign.eq@;
                let ghost added = types@;
                self.foreign.eq.append(&mut types);
                proof {
                    assert(type_ref_views(self.foreign.eq@) =~= type_ref_views(prev)
                        + type_ref_views(added));
                }
                Ok(())
            },
            Attribute::Ord(types) => {
                let mut types = types;
                let ghost prev = self.foreign.ord@;
                let ghost added = types@;
                self.foreign.ord.append(&mut types);
                proof {
                    assert(type_ref_views(self.foreign.ord@) =~= type_ref_views(prev)
                        + type_ref_views(added));
                }
                Ok(())
            },
            Attribute::Serde => {
                self.foreign.serde = true;
                Ok(())
            },
            Attribute::NoDeref => {
                self.no_deref = true;
                Ok(())
            },
            Attribute::Infallible => {
                self.infallible = true;
                Ok(())
            },
        }
    }

    /// Merges one owned fragment: validates every supplied derive name,
    /// then applies last-write-wins to the owned type's name and
    /// accumulates the capability set.
    fn apply_owned(&mut self, items: Vec<OwnedTypeAttribute>) -> (r: Result<(), ConfigError>)
        ensures
            match apply_owned_spec(old(self)@, owned_attr_views(items@)) {
                Ok(o) => r is Ok && final(self)@ == o,
                Err(e) => r == Err::<(), ConfigError>(e) && final(self)@ == old(self)@,
            },
    {
        let ghost views = owned_attr_views(items@);
        let mut new_ident: Option<String> = None;
        let mut new_derives = Derives::empty();
        let n = items.len();
        let mut idx: usize = 0;
        while idx < n
            invariant
                n == items@.len(),
                idx <= n,
                views == owned_attr_views(items@),
                views.len() == n,
                owned_items_ok(views.take(idx as int)),
                match new_ident {
                    Some(i) => scan_owned_items(views.take(idx as int)).ident == Some(i@),
                    None => scan_owned_items(views.take(idx as int)).ident is None,
                },
                new_derives == scan_owned_items(views.take(idx as int)).derives,
            decreases n - idx,
        {
            let ghost prefix = views.take(idx as int);
            proof {
                assert(views.take(idx + 1).drop_last() =~= prefix);
                assert(views.take(idx + 1).last() == views[idx as int]);
            }
            match &items[idx] {
                OwnedTypeAttribute::Ident(i) => {
                    new_ident = Some(i.clone());
                },
                OwnedTypeAttribute::Derive(ns) => {
                    let ghost name_views = ns@.map_values(|x: String| x@);
                    proof {
                        assert(views[idx as int] == items@[idx as int]@);
                        assert(views[idx as int] == OwnedTypeAttributeV::Derive(name_views));
                    }
                    let m = ns.len();
                    let mut j: usize = 0;
                    while j < m
                        invariant
                            m == ns@.len(),
                            j <= m,
                            name_views == ns@.map_values(|x: String| x@),
                            name_views.len() == m,
                            idx < views.len(),
                            views == owned_attr_views(items@),
                            views[idx as int] == OwnedTypeAttributeV::Derive(name_views),
                            forall|k: int|
                                0 <= k < j ==> parse_derive_spec(#[trigger] name_views[k]) is Some,
                            new_derives == insert_names(
                                scan_owned_items(prefix).derives,
                                name_views.take(j as int),
                            ),
                        decreases m - j,
                    {
                        proof {
                            assert(name_views.take(j + 1).drop_last() =~= name_views.take(
                                j as int,
                            ));
                            assert(name_views.take(j + 1).last() == name_views[j as int]);
                            assert(name_views[j as int] == ns@[j as int]@);
                        }
                        match Derive::parse(ns[j].as_str()) {
                            Ok(d) => {
                                new_derives.insert(d);
                            },
                            Err(e) => {
                                proof {
                                    assert(parse_derive_spec(name_views[j as int]) is None);
                                    assert(!owned_item_ok(views[idx as int]));
                                    assert(!owned_items_ok(views));
                                }
                                return Err(e);
                            },
                        }
                        j += 1;
                    }
                    proof {
                        assert(name_views.take(m as int) =~= name_views);
                        assert(owned_item_ok(views[idx as int]));
                    }
                },
            }
            idx += 1;
        }
        proof {
            assert(views.take(n as int) =~= views);
        }
        let ghost scan = scan_owned_items(views);
        let mut slot: Option<OwnedTypeOptions> = None;
        core::mem::swap(&mut slot, &mut self.owned);
        match slot {
            Some(mut prev) => {
                if let Some(i) = new_ident {
                    prev.ident = i;
                }
                prev.derives.append(new_derives);
                self.owned = Some(prev);
                Ok(())
            },
            None => match new_ident {
                Some(i) => {
                    self.owned = Some(OwnedTypeOptions { ident: i, derives: new_derives });
                    Ok(())
                },
                None => Err(ConfigError::MissingOwnedIdent),
            },
        }
    }
}

/// Resolves a sequence of configuration fragments into one configuration,
/// aborting on the first structurally invalid fragment.
pub fn resolve(attrs: Vec<Attribute>) -> (r: Result<Options, ConfigError>)
    ensures
        match resolve_spec(init_options(), attr_views(attrs@)) {
            Ok(o) => r matches Ok(x) && x@ == o,
            Err(e) => r == Err::<Options, ConfigError>(e),
        },
{
    let ghost all = attr_views(attrs@);
    let mut pending = attrs;
    let mut options = Options::default();
    while pending.len() > 0
        invariant
            all == attr_views(attrs@),
            resolve_spec(init_options(), all) == resolve_spec(options@, attr_views(pending@)),
        decreases pending@.len(),
    {
        let ghost rest = attr_views(pending@);
        let a = pending.remove(0);
        proof {
            assert(rest.len() > 0);
            assert(rest.first() == a@);
            assert(attr_views(pending@) =~= rest.drop_first());
        }
        match options.apply(a) {
            Ok(_) => {
            },
            Err(e) => {
                proof {
                    assert(resolve_spec(options@, rest) == Err::<OptionsV, ConfigError>(e));
                }
                return Err(e);
            },
        }
    }
    Ok(options)
}

} // verus!
