//! The library's laws: properties that relate the normalization functions,
//! stated over the same models their contracts use, and proved once.

use vstd::prelude::*;
use vstd::seq_lib::*;
use crate::fields::{ConsumptionFields, HouseFields, PriceFields, ProductionFields};
use crate::history::{
    consumption_node_fn, consumption_node_of, consumptions_of, production_node_fn,
    production_node_of, productions_of,
};
use crate::house::{
    heating_source_of, house_of, house_type_of, known_heating_source, known_house_type,
    HeatingSource, HouseType,
};
use crate::price::{
    known_price_level, price_level_of, price_node_fn, price_node_of, prices_of, reconciled_energy,
    reconciled_tax, PriceLevel,
};

verus! {

/// When exactly one of the energy/tax components is supplied alongside the
/// total, the other is derived as the total minus the supplied one.  The
/// components sum to the total whenever at most one was supplied; two
/// independently supplied components are taken as-is, so their sum matches
/// the total only if the upstream values already did.
pub proof fn lemma_component_reconciliation(total: i64, energy: Option<i64>, tax: Option<i64>)
    ensures
        energy matches Some(e) ==> reconciled_energy(total, energy, tax) == e,
        tax matches Some(t) ==> reconciled_tax(total, energy, tax) == t,
        energy matches Some(e) ==> (tax is None ==> reconciled_tax(total, energy, tax) == total
            - e),
        tax matches Some(t) ==> (energy is None ==> reconciled_energy(total, energy, tax) == total
            - t),
        !(energy is Some && tax is Some) ==> reconciled_energy(total, energy, tax)
            + reconciled_tax(total, energy, tax) == total,
        energy matches Some(e) ==> (tax matches Some(t) ==> (reconciled_energy(total, energy, tax)
            + reconciled_tax(total, energy, tax) == total <==> e + t == total)),
{
}

/// An unrecognized enum tag string is preserved verbatim in the fallback
/// variant of the corresponding domain enum — no information loss.  (For
/// heating sources, the dedicated upstream tag "OTHER" carries no payload.)
pub proof fn lemma_unknown_tags_preserved(house_tag: String, heat_tag: String, level_tag: String)
    ensures
        !known_house_type(house_tag@) ==> house_type_of(house_tag) == HouseType::Other(house_tag),
        !known_heating_source(heat_tag@) ==> (heat_tag@ != "OTHER"@ ==> heating_source_of(
            Some(heat_tag),
        ) == HeatingSource::Other(Some(heat_tag))),
        !known_price_level(level_tag@) ==> price_level_of(Some(level_tag)) == PriceLevel::Other(
            level_tag,
        ),
{
}

/// A negative size, resident count or fuse size is treated as absent: the
/// home record is still produced, the field is absent, and never holds a
/// wrapped unsigned value; a value within the `u32` range is kept as it is.
pub proof fn lemma_negative_counts_absent(f: HouseFields)
    ensures
        f.size matches Some(s) ==> (s < 0 ==> house_of(f).size is None),
        f.number_of_residents matches Some(n) ==> (n < 0 ==> house_of(f).number_of_residents
            is None),
        f.main_fuse_size matches Some(m) ==> (m < 0 ==> house_of(f).main_fuse_size is None),
        f.size matches Some(s) ==> (0 <= s <= u32::MAX ==> house_of(f).size == Some(s as u32)),
        f.number_of_residents matches Some(n) ==> (0 <= n <= u32::MAX ==> house_of(
            f,
        ).number_of_residents == Some(n as u32)),
        f.main_fuse_size matches Some(m) ==> (0 <= m <= u32::MAX ==> house_of(f).main_fuse_size
            == Some(m as u32)),
{
}

/// The number of elements of `s` that the element function `f` keeps.
pub open spec fn kept_count<A, B>(s: Seq<A>, f: spec_fn(A) -> Option<B>) -> nat
    decreases s.len(),
{
    if s.len() == 0 {
        0
    } else {
        kept_count(s.drop_last(), f) + (if f(s.last()) is Some {
            1nat
        } else {
            0nat
        })
    }
}

/// A list with N well-formed and M malformed elements normalizes to exactly
/// N records: best-effort list normalization keeps one output element per
/// kept input element.
pub proof fn lemma_filter_map_len<A, B>(s: Seq<A>, f: spec_fn(A) -> Option<B>)
    ensures
        s.filter_map(f).len() == kept_count(s, f),
    decreases s.len(),
{
    if s.len() > 0 {
        lemma_filter_map_len(s.drop_last(), f);
    }
}

/// Well-formed elements keep their relative order: the record of the element
/// at input index `i` stands at the output index given by the number of kept
/// elements before `i`.
pub proof fn lemma_filter_map_position<A, B>(s: Seq<A>, f: spec_fn(A) -> Option<B>, i: int)
    requires
        0 <= i < s.len(),
        f(s[i]) is Some,
    ensures
        kept_count(s.take(i), f) < s.filter_map(f).len(),
        s.filter_map(f)[kept_count(s.take(i), f) as int] == f(s[i])->0,
    decreases s.len(),
{
    lemma_filter_map_len(s, f);
    if i == s.len() - 1 {
        assert(s.take(i) =~= s.drop_last());
        lemma_filter_map_len(s.drop_last(), f);
    } else {
        lemma_filter_map_position(s.drop_last(), f, i);
        assert(s.drop_last().take(i) =~= s.take(i));
    }
}

/// A price list with N well-formed and M malformed nodes yields exactly N
/// records.
pub proof fn lemma_price_list_count(s: Seq<Option<PriceFields>>)
    ensures
        prices_of(s).len() == kept_count(s, price_node_fn()),
{
    lemma_filter_map_len(s, price_node_fn());
}

/// A well-formed price node keeps its relative order in the normalized list.
pub proof fn lemma_price_list_order(s: Seq<Option<PriceFields>>, i: int)
    requires
        0 <= i < s.len(),
        price_node_of(s[i]) is Some,
    ensures
        kept_count(s.take(i), price_node_fn()) < prices_of(s).len(),
        prices_of(s)[kept_count(s.take(i), price_node_fn()) as int] == price_node_of(s[i])->0,
{
    lemma_filter_map_position(s, price_node_fn(), i);
}

/// A consumption history with N well-formed and M malformed nodes yields
/// exactly N records, and each well-formed node keeps its relative order.
pub proof fn lemma_consumption_list_best_effort(s: Seq<Option<ConsumptionFields>>, i: int)
    requires
        0 <= i < s.len(),
        consumption_node_of(s[i]) is Some,
    ensures
        consumptions_of(s).len() == kept_count(s, consumption_node_fn()),
        kept_count(s.take(i), consumption_node_fn()) < consumptions_of(s).len(),
        consumptions_of(s)[kept_count(s.take(i), consumption_node_fn()) as int]
            == consumption_node_of(s[i])->0,
{
    lemma_filter_map_len(s, consumption_node_fn());
    lemma_filter_map_position(s, consumption_node_fn(), i);
}

/// A production history with N well-formed and M malformed nodes yields
/// exactly N records, and each well-formed node keeps its relative order.
pub proof fn lemma_production_list_best_effort(s: Seq<Option<ProductionFields>>, i: int)
    requires
        0 <= i < s.len(),
        production_node_of(s[i]) is Some,
    ensures
        productions_of(s).len() == kept_count(s, production_node_fn()),
        kept_count(s.take(i), production_node_fn()) < productions_of(s).len(),
        productions_of(s)[kept_count(s.take(i), production_node_fn()) as int]
            == production_node_of(s[i])->0,
{
    lemma_filter_map_len(s, production_node_fn());
    lemma_filter_map_position(s, production_node_fn(), i);
}

} // verus!
