//! Global-consistency laws of the engine: the fallible/infallible duality
//! governs the shape of every synthesized signature, ordering generation
//! always comes with equality generation, and resolution is idempotent on
//! the accumulated sets.

use vstd::prelude::*;

use crate::artifact::{ArtifactV, artifact_shape};
use crate::config::{
    AttributeV, Derives, ForeignV, OptionsV, OwnedV, apply_spec, init_options, resolve_spec,
    scan_owned_items,
};
use crate::synthesize::{
    borrowed_block_spec, ctor_block_spec, deref_block_spec, derive_impl_spec, derives_block_spec,
    eq_pair_spec, eq_pairs_spec, foreign_block_spec, ord_pairs_spec, owned_block_spec,
    owned_common_block_spec, owned_ctor_block_spec, owned_head_spec, serde_block_spec,
    synthesize_spec, universal_block_spec,
};

verus! {

/// Whether one artifact is consistent with the given mode: a signature
/// bearing the validation-checking shape exists exactly in fallible mode,
/// and the error carrier only exists there.
pub open spec fn artifact_mode_ok(a: ArtifactV, infallible: bool) -> bool {
    &&& match artifact_shape(a) {
        Some(shape) => shape is ChecksValidation <==> !infallible,
        None => true,
    }
    &&& (a is ErrorCarrier ==> !infallible)
}

/// Whether every artifact of a set is consistent with the given mode.
pub open spec fn artifacts_mode_ok(s: Seq<ArtifactV>, infallible: bool) -> bool {
    forall|i: int| 0 <= i < s.len() ==> artifact_mode_ok(#[trigger] s[i], infallible)
}

/// Mode consistency is preserved by concatenation.
proof fn lemma_mode_ok_concat(a: Seq<ArtifactV>, b: Seq<ArtifactV>, infallible: bool)
    requires
        artifacts_mode_ok(a, infallible),
        artifacts_mode_ok(b, infallible),
    ensures
        artifacts_mode_ok(a + b, infallible),
{
    assert forall|i: int| 0 <= i < (a + b).len() implies artifact_mode_ok(
        #[trigger] (a + b)[i],
        infallible,
    ) by {
        if i < a.len() {
            assert((a + b)[i] == a[i]);
        } else {
            assert((a + b)[i] == b[i - a.len()]);
        }
    }
}

/// Every item of the derive-flag blocks is mode-consistent: the capability
/// items and the mirrored foreign pairs carry no constructor shape.
proof fn lemma_derives_block_mode_ok(list: Seq<crate::config::Derive>, f: ForeignV, infallible: bool)
    ensures
        artifacts_mode_ok(derives_block_spec(list, f), infallible),
    decreases list.len(),
{
    if list.len() != 0 {
        assert(artifacts_mode_ok(derive_impl_spec(list.first(), f), infallible));
        lemma_derives_block_mode_ok(list.drop_first(), f, infallible);
        lemma_mode_ok_concat(
            derive_impl_spec(list.first(), f),
            derives_block_spec(list.drop_first(), f),
            infallible,
        );
    }
}

/// Duality consistency at the artifact level: in a fallible configuration
/// the error carrier is emitted and every constructor-like signature checks
/// validation; in an infallible configuration no artifact carries the
/// validation-checking shape and no error carrier exists, the only failure
/// channels left being the text-decoding ones.
pub proof fn lemma_duality_consistency(o: OptionsV)
    ensures
        artifacts_mode_ok(synthesize_spec(o), o.infallible),
        !o.infallible ==> synthesize_spec(o).contains(ArtifactV::ErrorCarrier),
        o.infallible ==> !synthesize_spec(o).contains(ArtifactV::ErrorCarrier),
{
    let inf = o.infallible;
    assert(artifacts_mode_ok(ctor_block_spec(inf), inf));
    assert(artifacts_mode_ok(universal_block_spec(), inf));
    assert(artifacts_mode_ok(deref_block_spec(o.no_deref), inf));
    lemma_mode_ok_concat(ctor_block_spec(inf), universal_block_spec(), inf);
    lemma_mode_ok_concat(
        ctor_block_spec(inf) + universal_block_spec(),
        deref_block_spec(o.no_deref),
        inf,
    );
    assert(artifacts_mode_ok(eq_pairs_spec(o.foreign.eq + o.foreign.ord, !inf), inf));
    assert(artifacts_mode_ok(ord_pairs_spec(o.foreign.ord, !inf), inf));
    lemma_mode_ok_concat(
        eq_pairs_spec(o.foreign.eq + o.foreign.ord, !inf),
        ord_pairs_spec(o.foreign.ord, !inf),
        inf,
    );
    lemma_mode_ok_concat(borrowed_block_spec(o), foreign_block_spec(o.foreign, inf), inf);
    assert(artifacts_mode_ok(serde_block_spec(crate::artifact::Host::Borrowed, o.foreign.serde, inf), inf));
    lemma_mode_ok_concat(
        borrowed_block_spec(o) + foreign_block_spec(o.foreign, inf),
        serde_block_spec(crate::artifact::Host::Borrowed, o.foreign.serde, inf),
        inf,
    );
    let owned_part = match o.owned {
        Some(ow) => owned_block_spec(ow, o.foreign, inf),
        None => Seq::<ArtifactV>::empty(),
    };
    match o.owned {
        Some(ow) => {
            assert(artifacts_mode_ok(owned_ctor_block_spec(inf), inf));
            assert(artifacts_mode_ok(owned_common_block_spec(), inf));
            assert(artifacts_mode_ok(
                seq![ArtifactV::OwnedDecl { ident: ow.ident, field_public: inf }],
                inf,
            ));
            lemma_mode_ok_concat(
                seq![ArtifactV::OwnedDecl { ident: ow.ident, field_public: inf }],
                owned_ctor_block_spec(inf),
                inf,
            );
            lemma_mode_ok_concat(
                seq![ArtifactV::OwnedDecl { ident: ow.ident, field_public: inf }]
                    + owned_ctor_block_spec(inf),
                owned_common_block_spec(),
                inf,
            );
            assert(artifacts_mode_ok(
                serde_block_spec(crate::artifact::Host::Owned, o.foreign.serde, inf),
                inf,
            ));
            lemma_mode_ok_concat(
                seq![ArtifactV::OwnedDecl { ident: ow.ident, field_public: inf }]
                    + owned_ctor_block_spec(inf) + owned_common_block_spec(),
                serde_block_spec(crate::artifact::Host::Owned, o.foreign.serde, inf),
                inf,
            );
            lemma_derives_block_mode_ok(ow.derives.spec_list(), o.foreign, inf);
            lemma_mode_ok_concat(
                owned_head_spec(ow, o.foreign, inf),
                derives_block_spec(ow.derives.spec_list(), o.foreign),
                inf,
            );
        },
        None => {
            assert(artifacts_mode_ok(owned_part, inf));
        },
    }
    lemma_mode_ok_concat(
        borrowed_block_spec(o) + foreign_block_spec(o.foreign, inf) + serde_block_spec(
            crate::artifact::Host::Borrowed,
            o.foreign.serde,
            inf,
        ),
        owned_part,
        inf,
    );
    if !inf {
        assert(synthesize_spec(o)[0] == ctor_block_spec(inf)[0]);
        assert(synthesize_spec(o).contains(ArtifactV::ErrorCarrier));
    } else {
        if synthesize_spec(o).contains(ArtifactV::ErrorCarrier) {
            let i = choose|i: int|
                0 <= i < synthesize_spec(o).len() && synthesize_spec(o)[i]
                    == ArtifactV::ErrorCarrier;
            assert(artifact_mode_ok(synthesize_spec(o)[i], inf));
            assert(false);
        }
    }
}

/// Ordering/equality coupling: for every type under ordering generation,
/// the artifact set also holds an equality pair for that same type, because
/// equality pairs are emitted for the whole `foreign_eq ++ foreign_ord`
/// chain before any ordering pair.
pub proof fn lemma_ordering_equality_coupling(o: OptionsV, i: int)
    requires
        0 <= i < o.foreign.ord.len(),
    ensures
        synthesize_spec(o).contains(eq_pair_spec(o.foreign.ord[i], !o.infallible)),
{
    let s = synthesize_spec(o);
    let bb = borrowed_block_spec(o);
    let chain = o.foreign.eq + o.foreign.ord;
    let pairs = eq_pairs_spec(chain, !o.infallible);
    let idx = bb.len() + o.foreign.eq.len() + i;
    assert(chain[o.foreign.eq.len() + i] == o.foreign.ord[i]);
    assert(pairs[o.foreign.eq.len() + i] == eq_pair_spec(o.foreign.ord[i], !o.infallible));
    assert((bb + foreign_block_spec(o.foreign, o.infallible))[idx] == eq_pair_spec(
        o.foreign.ord[i],
        !o.infallible,
    ));
    assert(s[idx] == eq_pair_spec(o.foreign.ord[i], !o.infallible));
    assert(s.contains(eq_pair_spec(o.foreign.ord[i], !o.infallible)));
}

/// The equality types contributed by a fragment sequence, in order.
pub open spec fn frags_eq(s: Seq<AttributeV>) -> Seq<Seq<char>>
    decreases s.len(),
{
    if s.len() == 0 {
        Seq::empty()
    } else {
        (match s.first() {
            AttributeV::Eq(tys) => tys,
            _ => Seq::empty(),
        }) + frags_eq(s.drop_first())
    }
}

/// The ordering types contributed by a fragment sequence, in order.
pub open spec fn frags_ord(s: Seq<AttributeV>) -> Seq<Seq<char>>
    decreases s.len(),
{
    if s.len() == 0 {
        Seq::empty()
    } else {
        (match s.first() {
            AttributeV::Ord(tys) => tys,
            _ => Seq::empty(),
        }) + frags_ord(s.drop_first())
    }
}

/// Whether a fragment sequence requests serialization.
pub open spec fn frags_serde(s: Seq<AttributeV>) -> bool
    decreases s.len(),
{
    s.len() > 0 && (s.first() is Serde || frags_serde(s.drop_first()))
}

/// Whether a fragment sequence suppresses the dereference view.
pub open spec fn frags_noderef(s: Seq<AttributeV>) -> bool
    decreases s.len(),
{
    s.len() > 0 && (s.first() is NoDeref || frags_noderef(s.drop_first()))
}

/// Whether a fragment sequence declares validation infallible.
pub open spec fn frags_infallible(s: Seq<AttributeV>) -> bool
    decreases s.len(),
{
    s.len() > 0 && (s.first() is Infallible || frags_infallible(s.drop_first()))
}

/// The concatenation of all display-name pieces of a fragment sequence.
pub open spec fn frags_name(s: Seq<AttributeV>) -> Option<Seq<char>>
    decreases s.len(),
{
    if s.len() == 0 {
        None
    } else {
        match s.first() {
            AttributeV::Name(n) => match frags_name(s.drop_first()) {
                Some(q) => Some(n + q),
                None => Some(n),
            },
            _ => frags_name(s.drop_first()),
        }
    }
}

/// How a configured display name combines with the names contributed by
/// further fragments: concatenation, never replacement.
pub open spec fn combine_name(base: Option<Seq<char>>, add: Option<Seq<char>>) -> Option<
    Seq<char>,
> {
    match (base, add) {
        (Some(p), Some(n)) => Some(p + n),
        (Some(p), None) => Some(p),
        (None, x) => x,
    }
}

/// The last owned-type name supplied by a fragment sequence.
pub open spec fn frags_owned_ident(s: Seq<AttributeV>) -> Option<Seq<char>>
    decreases s.len(),
{
    if s.len() == 0 {
        None
    } else {
        match frags_owned_ident(s.drop_first()) {
            Some(i) => Some(i),
            None => match s.first() {
                AttributeV::Owned(items) => scan_owned_items(items).ident,
                _ => None,
            },
        }
    }
}

/// The union of all owned-type capabilities requested by a fragment
/// sequence.
pub open spec fn frags_owned_derives(s: Seq<AttributeV>) -> Derives
    decreases s.len(),
{
    if s.len() == 0 {
        Derives::spec_empty()
    } else {
        (match s.first() {
            AttributeV::Owned(items) => scan_owned_items(items).derives,
            _ => Derives::spec_empty(),
        }).spec_union(frags_owned_derives(s.drop_first()))
    }
}

/// Whether a fragment sequence requests an owned companion.
pub open spec fn frags_has_owned(s: Seq<AttributeV>) -> bool
    decreases s.len(),
{
    s.len() > 0 && (s.first() is Owned || frags_has_owned(s.drop_first()))
}

/// Resolution over a concatenation is resolution over the first part,
/// continued over the second.
pub proof fn lemma_resolve_append(o: OptionsV, s1: Seq<AttributeV>, s2: Seq<AttributeV>)
    ensures
        resolve_spec(o, s1 + s2) == (match resolve_spec(o, s1) {
            Ok(m) => resolve_spec(m, s2),
            Err(e) => Err::<OptionsV, crate::config::ConfigError>(e),
        }),
    decreases s1.len(),
{
    if s1.len() == 0 {
        assert(s1 + s2 =~= s2);
    } else {
        assert((s1 + s2).len() > 0);
        assert((s1 + s2).first() == s1.first());
        assert((s1 + s2).drop_first() =~= s1.drop_first() + s2);
        match apply_spec(o, s1.first()) {
            Ok(m) => {
                lemma_resolve_append(m, s1.drop_first(), s2);
            },
            Err(_) => {
            },
        }
    }
}

/// A fragment sequence that resolves from one configuration also resolves
/// from any configuration that is no poorer in having an owned companion:
/// the only state-dependent failure is a first owned fragment without a
/// name.
pub proof fn lemma_resolve_ok_monotone(o1: OptionsV, o2: OptionsV, s: Seq<AttributeV>)
    requires
        resolve_spec(o1, s) is Ok,
        o1.owned is Some ==> o2.owned is Some,
    ensures
        resolve_spec(o2, s) is Ok,
    decreases s.len(),
{
    if s.len() > 0 {
        let a = s.first();
        assert(apply_spec(o1, a) is Ok);
        assert(apply_spec(o2, a) is Ok);
        let n1 = apply_spec(o1, a)->Ok_0;
        let n2 = apply_spec(o2, a)->Ok_0;
        assert(n1.owned is Some ==> n2.owned is Some);
        lemma_resolve_ok_monotone(n1, n2, s.drop_first());
    }
}

/// What resolution computes, field by field: sequences and sets
/// accumulate, scalars follow last-write-wins, and the display name
/// concatenates.
pub proof fn lemma_resolve_characterize(o: OptionsV, s: Seq<AttributeV>)
    requires
        resolve_spec(o, s) is Ok,
    ensures
        ({
            let m = resolve_spec(o, s)->Ok_0;
            &&& m.foreign.eq == o.foreign.eq + frags_eq(s)
            &&& m.foreign.ord == o.foreign.ord + frags_ord(s)
            &&& m.foreign.serde == (o.foreign.serde || frags_serde(s))
            &&& m.no_deref == (o.no_deref || frags_noderef(s))
            &&& m.infallible == (o.infallible || frags_infallible(s))
            &&& m.name == combine_name(o.name, frags_name(s))
            &&& (o.owned matches Some(prev) ==> m.owned == Some(
                OwnedV {
                    ident: match frags_owned_ident(s) {
                        Some(i) => i,
                        None => prev.ident,
                    },
                    derives: prev.derives.spec_union(frags_owned_derives(s)),
                },
            ))
            &&& (o.owned is None && !frags_has_owned(s) ==> m.owned is None)
            &&& (o.owned is None && frags_has_owned(s) ==> frags_owned_ident(s) is Some)
            &&& (o.owned is None && frags_has_owned(s) ==> m.owned == Some(
                OwnedV {
                    ident: frags_owned_ident(s)->Some_0,
                    derives: frags_owned_derives(s),
                },
            ))
        }),
    decreases s.len(),
{
    if s.len() == 0 {
        assert(o.foreign.eq + frags_eq(s) =~= o.foreign.eq);
        assert(o.foreign.ord + frags_ord(s) =~= o.foreign.ord);
    } else {
        let a = s.first();
        let rest = s.drop_first();
        assert(apply_spec(o, a) is Ok);
        let o1 = apply_spec(o, a)->Ok_0;
        lemma_resolve_characterize(o1, rest);
        let m = resolve_spec(o, s)->Ok_0;
        match a {
            AttributeV::Name(n) => {
                assert(frags_eq(s) =~= frags_eq(rest));
                assert(frags_ord(s) =~= frags_ord(rest));
                match o.name {
                    Some(p) => {
                        match frags_name(rest) {
                            Some(q) => {
                                assert((p + n) + q =~= p + (n + q));
                            },
                            None => {
                            },
                        }
                    },
                    None => {
                    },
                }
            },
            AttributeV::Owned(items) => {
                assert(frags_eq(s) =~= frags_eq(rest));
                assert(frags_ord(s) =~= frags_ord(rest));
                let scan = scan_owned_items(items);
                match o.owned {
                    Some(prev) => {
                        assert(Derives::spec_union(
                            prev.derives.spec_union(scan.derives),
                            frags_owned_derives(rest),
                        ) == prev.derives.spec_union(
                            scan.derives.spec_union(frags_owned_derives(rest)),
                        ));
                    },
                    None => {
                        assert(scan.ident is Some);
                    },
                }
            },
            AttributeV::Eq(tys) => {
                assert((o.foreign.eq + tys) + frags_eq(rest) =~= o.foreign.eq + (tys + frags_eq(
                    rest,
                )));
                assert(frags_ord(s) =~= frags_ord(rest));
            },
            AttributeV::Ord(tys) => {
                assert((o.foreign.ord + tys) + frags_ord(rest) =~= o.foreign.ord + (tys
                    + frags_ord(rest)));
                assert(frags_eq(s) =~= frags_eq(rest));
            },
            AttributeV::Serde => {
                assert(frags_eq(s) =~= frags_eq(rest));
                assert(frags_ord(s) =~= frags_ord(rest));
            },
            AttributeV::NoDeref => {
                assert(frags_eq(s) =~= frags_eq(rest));
                assert(frags_ord(s) =~= frags_ord(rest));
            },
            AttributeV::Infallible => {
                assert(frags_eq(s) =~= frags_eq(rest));
                assert(frags_ord(s) =~= frags_ord(rest));
            },
        }
    }
}

/// Merge idempotence: resolving a fragment sequence doubled yields the
/// same accumulated sets, owned-companion request and scalar flags as
/// resolving it once; the display name is the exception and concatenates,
/// so it is not idempotent under repetition.
pub proof fn lemma_merge_idempotence(s: Seq<AttributeV>)
    requires
        resolve_spec(init_options(), s) is Ok,
    ensures
        resolve_spec(init_options(), s + s) is Ok,
        ({
            let once = resolve_spec(init_options(), s)->Ok_0;
            let twice = resolve_spec(init_options(), s + s)->Ok_0;
            &&& twice.foreign.eq.to_set() == once.foreign.eq.to_set()
            &&& twice.foreign.ord.to_set() == once.foreign.ord.to_set()
            &&& twice.foreign.serde == once.foreign.serde
            &&& twice.no_deref == once.no_deref
            &&& twice.infallible == once.infallible
            &&& (match (once.owned, twice.owned) {
                (Some(a), Some(b)) => a.derives == b.derives && a.ident == b.ident,
                (None, None) => true,
                _ => false,
            })
            &&& twice.name == (match once.name {
                Some(n) => Some(n + n),
                None => None::<Seq<char>>,
            })
        }),
{
    broadcast use vstd::seq_lib::group_seq_properties;

    let init = init_options();
    let once = resolve_spec(init, s)->Ok_0;
    lemma_resolve_append(init, s, s);
    lemma_resolve_ok_monotone(init, once, s);
    lemma_resolve_characterize(init, s);
    lemma_resolve_characterize(once, s);
    let twice = resolve_spec(init, s + s)->Ok_0;
    assert(once.foreign.eq =~= frags_eq(s));
    assert(once.foreign.ord =~= frags_ord(s));
    assert(twice.foreign.eq =~= frags_eq(s) + frags_eq(s));
    assert(twice.foreign.ord =~= frags_ord(s) + frags_ord(s));
    assert(twice.foreign.eq.to_set() =~= once.foreign.eq.to_set());
    assert(twice.foreign.ord.to_set() =~= once.foreign.ord.to_set());
    match once.owned {
        Some(a) => {
            assert(a.derives.spec_union(frags_owned_derives(s)) == a.derives);
        },
        None => {
        },
    }
}

} // verus!
