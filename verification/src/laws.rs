//! The laws of the generator, each proved once and for all inputs: order
//! preservation, skip filtering, the empty result, independence from
//! variant payload shape, generic transparency, and determinism.

use vstd::prelude::*;
use vstd::seq_lib::*;

use crate::ast::RawDeclV;
use crate::ast::RawVariantV;
use crate::decode;
use crate::decode::MemberV;
use crate::emit::emitted;
use crate::fields;

verus! {

/// Order preservation: with no member skipped, the emitted list is exactly
/// the member names, verbatim and in declaration order.
pub proof fn lemma_order_preservation(ms: Seq<MemberV>)
    requires
        forall|i: int| 0 <= i < ms.len() ==> !ms[i].skip,
    ensures
        emitted(ms) == ms.map_values(|m: MemberV| m.name),
    decreases ms.len(),
{
    let f = |m: MemberV| m.name;
    if ms.len() == 0 {
        assert(emitted(ms) =~= ms.map_values(f));
    } else {
        assert(!ms[ms.len() - 1].skip);
        assert(forall|j: int|
            0 <= j < ms.drop_last().len() ==> ms.drop_last()[j] == ms[j] && !ms[j].skip);
        lemma_order_preservation(ms.drop_last());
        assert(ms.map_values(f) =~= ms.drop_last().map_values(f).push(ms.last().name));
    }
}

/// Skip filtering: the emitted list is what remains of the member list
/// after removing exactly the members flagged skip, in order, each mapped
/// to its name.
pub proof fn lemma_skip_filtering(ms: Seq<MemberV>)
    ensures
        emitted(ms) == ms.filter(|m: MemberV| !m.skip).map_values(|m: MemberV| m.name),
    decreases ms.len(),
{
    let keep = |m: MemberV| !m.skip;
    let f = |m: MemberV| m.name;
    reveal(Seq::filter);
    if ms.len() == 0 {
        assert(ms.filter(keep) == ms);
        assert(emitted(ms) =~= ms.map_values(f));
    } else {
        lemma_skip_filtering(ms.drop_last());
        if keep(ms.last()) {
            assert(ms.filter(keep) == ms.drop_last().filter(keep).push(ms.last()));
            assert(ms.filter(keep).map_values(f) =~= ms.drop_last().filter(keep).map_values(
                f,
            ).push(ms.last().name));
        } else {
            assert(ms.filter(keep) == ms.drop_last().filter(keep));
        }
    }
}

/// Empty result: a member list whose every member is skipped emits the
/// empty list — a valid outcome, not an error.
pub proof fn lemma_empty_result(ms: Seq<MemberV>)
    requires
        forall|i: int| 0 <= i < ms.len() ==> ms[i].skip,
    ensures
        emitted(ms) == Seq::<Seq<char>>::empty(),
    decreases ms.len(),
{
    if ms.len() == 0 {
        assert(emitted(ms) =~= Seq::<Seq<char>>::empty());
    } else {
        assert(ms[ms.len() - 1].skip);
        assert(forall|j: int|
            0 <= j < ms.drop_last().len() ==> ms.drop_last()[j] == ms[j] && ms[j].skip);
        lemma_empty_result(ms.drop_last());
    }
}

/// Every emitted name is the name of some non-skipped member.
pub proof fn lemma_emitted_from_members(ms: Seq<MemberV>, k: int)
    requires
        0 <= k < emitted(ms).len(),
    ensures
        exists|i: int| 0 <= i < ms.len() && !ms[i].skip && ms[i].name == emitted(ms)[k],
    decreases ms.len(),
{
    if ms.len() == 0 {
    } else if ms.last().skip {
        lemma_emitted_from_members(ms.drop_last(), k);
        let i = choose|i: int|
            0 <= i < ms.drop_last().len() && !ms.drop_last()[i].skip && ms.drop_last()[i].name
                == emitted(ms.drop_last())[k];
        assert(0 <= i < ms.len() && !ms[i].skip && ms[i].name == emitted(ms)[k]);
    } else {
        if k < emitted(ms.drop_last()).len() {
            lemma_emitted_from_members(ms.drop_last(), k);
            let i = choose|i: int|
                0 <= i < ms.drop_last().len() && !ms.drop_last()[i].skip && ms.drop_last()[i].name
                    == emitted(ms.drop_last())[k];
            assert(0 <= i < ms.len() && !ms[i].skip && ms[i].name == emitted(ms)[k]);
        } else {
            assert(emitted(ms)[k] == ms.last().name);
            assert(!ms[ms.len() - 1].skip && ms[ms.len() - 1].name == emitted(ms)[k]);
        }
    }
}

/// The emitted list never introduces duplicates of its own: when the source
/// member names are pairwise distinct, so are the emitted names. (When the
/// source itself repeats a name, the list mirrors the repetition.)
pub proof fn lemma_no_new_duplicates(ms: Seq<MemberV>)
    requires
        forall|i: int, j: int| 0 <= i < j < ms.len() ==> ms[i].name != ms[j].name,
    ensures
        forall|p: int, q: int|
            0 <= p < q < emitted(ms).len() ==> emitted(ms)[p] != emitted(ms)[q],
    decreases ms.len(),
{
    if ms.len() == 0 {
    } else {
        assert(forall|i: int, j: int|
            0 <= i < j < ms.drop_last().len() ==> ms.drop_last()[i].name != ms.drop_last()[j].name);
        lemma_no_new_duplicates(ms.drop_last());
        let e = emitted(ms);
        let prior = emitted(ms.drop_last());
        assert forall|p: int, q: int| 0 <= p < q < e.len() implies e[p] != e[q] by {
            if ms.last().skip {
            } else if q < prior.len() {
            } else {
                lemma_emitted_from_members(ms.drop_last(), p);
                let i = choose|i: int|
                    0 <= i < ms.drop_last().len() && !ms.drop_last()[i].skip && ms.drop_last()[i].name
                        == prior[p];
                assert(ms[i].name != ms[ms.len() - 1].name);
            }
        }
    }
}

/// Two variant lists that agree on names and annotations, differing only
/// in each variant's payload shape.
pub open spec fn same_except_shape(a: Seq<RawVariantV>, b: Seq<RawVariantV>) -> bool {
    &&& a.len() == b.len()
    &&& forall|i: int|
        0 <= i < a.len() ==> #[trigger] a[i].name == b[i].name && a[i].options == b[i].options
}

/// Variant independence from payload shape: the variant extractor's
/// acceptance, its validated members, and the emitted list are the same
/// whether each variant is unit, tuple, or struct-like.
pub proof fn lemma_payload_shape_irrelevant(a: Seq<RawVariantV>, b: Seq<RawVariantV>)
    requires
        same_except_shape(a, b),
    ensures
        decode::variants_wf(a) == decode::variants_wf(b),
        decode::members_of_variants(a) == decode::members_of_variants(b),
        emitted(decode::members_of_variants(a)) == emitted(decode::members_of_variants(b)),
{
    assert forall|i: int| 0 <= i < a.len() implies decode::variant_wf(a[i]) == decode::variant_wf(
        b[i],
    ) && decode::member_of_variant(a[i]) == decode::member_of_variant(b[i]) by {
        assert(a[i].name == b[i].name && a[i].options == b[i].options);
    }
    if decode::variants_wf(a) {
        assert forall|i: int| 0 <= i < b.len() implies decode::variant_wf(b[i]) by {
            assert(decode::variant_wf(a[i]));
        }
    }
    if decode::variants_wf(b) {
        assert forall|i: int| 0 <= i < a.len() implies decode::variant_wf(a[i]) by {
            assert(decode::variant_wf(b[i]));
        }
    }
    assert(decode::members_of_variants(a) =~= decode::members_of_variants(b));
}

/// Generic transparency: whether a declaration decodes, and which names it
/// emits, depend only on its member list — never on its identifier or its
/// generics signature, so the list is the same for every instantiation of
/// a generic type.
pub proof fn lemma_generic_transparency(d1: RawDeclV, d2: RawDeclV)
    requires
        d1.body == d2.body,
    ensures
        fields::decodable(d1) == fields::decodable(d2),
        emitted(decode::members_of_fields(fields::struct_fields(d1))) == emitted(
            decode::members_of_fields(fields::struct_fields(d2)),
        ),
{
}

/// Determinism: generation is a pure function of the declaration, so any
/// two runs of the field extractor on an unchanged declaration yield
/// character-identical fragments.
pub proof fn lemma_field_generation_deterministic(d: RawDeclV, f1: Seq<char>, f2: Seq<char>)
    requires
        f1 == crate::field_fragment(d),
        f2 == crate::field_fragment(d),
    ensures
        f1 == f2,
{
}

/// Determinism for the variant extractor, in the same sense.
pub proof fn lemma_variant_generation_deterministic(d: RawDeclV, f1: Seq<char>, f2: Seq<char>)
    requires
        f1 == crate::variant_fragment(d),
        f2 == crate::variant_fragment(d),
    ensures
        f1 == f2,
{
}

} // verus!
