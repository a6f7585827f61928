//! Consumption- and production-history normalization.

use vstd::prelude::*;
use vstd::seq_lib::*;
use crate::fields::{ConsumptionFields, ProductionFields};
use crate::strutil::str_eq;
use crate::timestamp::{parses_as_rfc3339, rfc3339_ok, Timestamp};
use crate::NormalizeError;

verus! {

/// Resolution of time when requesting history data.
#[derive(Debug, Clone, PartialEq, Eq)]
pub enum TimeResolution {
    /// Hourly intervals.
    Hourly,
    /// Daily intervals.
    Daily,
    /// Weekly intervals.
    Weekly,
    /// Monthly intervals.
    Monthly,
    /// Yearly intervals.
    Annual,
}

impl TimeResolution {
    /// The upstream enum tag of this resolution.
    pub open spec fn tag_spec(self) -> Seq<char> {
        match self {
            TimeResolution::Hourly => "HOURLY"@,
            TimeResolution::Daily => "DAILY"@,
            TimeResolution::Weekly => "WEEKLY"@,
            TimeResolution::Monthly => "MONTHLY"@,
            TimeResolution::Annual => "ANNUAL"@,
        }
    }

    /// The upstream enum tag to put in a history query for this resolution.
    pub fn tag(&self) -> (s: &str)
        ensures
            s@ == self.tag_spec(),
    {
        match self {
            TimeResolution::Hourly => "HOURLY",
            TimeResolution::Daily => "DAILY",
            TimeResolution::Weekly => "WEEKLY",
            TimeResolution::Monthly => "MONTHLY",
            TimeResolution::Annual => "ANNUAL",
        }
    }
}

/// A measured quantity of energy.
///
/// Only kilowatt-hours are first-class: any other unit, or a missing
/// quantity, is `Unspecified` (the raw unit text is intentionally dropped).
#[derive(Debug, Clone, PartialEq, Eq, PartialOrd)]
pub enum EnergyUnits {
    #[allow(non_camel_case_types)]
    /// Kilowatt-hours, as a fixed-point quantity in the caller's scale.
    kWh(i64),
    /// Not given, or given in a unit other than "kWh".
    Unspecified,
}

/// Consumption over one interval.
#[derive(Debug, Clone, PartialEq, Eq)]
pub struct Consumption {
    /// Start of the interval.
    pub from: Timestamp,
    /// End of the interval.
    pub to: Timestamp,
    /// Cost of the consumed energy.
    pub cost: i64,
    /// Price per unit.
    pub unit_price: i64,
    /// Tax per unit.
    pub unit_price_vat: i64,
    /// The consumed quantity, when reported in kilowatt-hours.
    pub energy: EnergyUnits,
}

/// Production over one interval.
#[derive(Debug, Clone, PartialEq, Eq)]
pub struct Production {
    /// Start of the interval.
    pub from: Timestamp,
    /// End of the interval.
    pub to: Timestamp,
    /// Profit from the produced energy.
    pub profit: i64,
    /// Price per unit.
    pub unit_price: i64,
    /// Tax per unit.
    pub unit_price_vat: i64,
    /// The produced quantity, when reported in kilowatt-hours.
    pub energy: EnergyUnits,
}

/// How a reported unit and quantity map to [`EnergyUnits`]: a quantity counts
/// only when the unit text is exactly "kWh".
pub open spec fn energy_units_of(unit: Option<String>, quantity: Option<i64>) -> EnergyUnits {
    match unit {
        Some(u) => if u@ == "kWh"@ {
            match quantity {
                Some(q) => EnergyUnits::kWh(q),
                None => EnergyUnits::Unspecified,
            }
        } else {
            EnergyUnits::Unspecified
        },
        None => EnergyUnits::Unspecified,
    }
}

fn energy_units_from(unit: Option<String>, quantity: Option<i64>) -> (r: EnergyUnits)
    ensures
        r == energy_units_of(unit, quantity),
{
    match unit {
        Some(u) => {
            if str_eq(u.as_str(), "kWh") {
                match quantity {
                    Some(q) => EnergyUnits::kWh(q),
                    None => EnergyUnits::Unspecified,
                }
            } else {
                EnergyUnits::Unspecified
            }
        },
        None => EnergyUnits::Unspecified,
    }
}

/// The normalization of one consumption node: cost, unit price and unit tax
/// are mandatory, and both interval boundaries must parse.
pub open spec fn consumption_of(f: ConsumptionFields) -> Result<Consumption, NormalizeError> {
    if f.cost is None || f.unit_price is None || f.unit_price_vat is None {
        Err(NormalizeError::MissingMandatoryField)
    } else if !rfc3339_ok(f.from@) || !rfc3339_ok(f.to@) {
        Err(NormalizeError::UnparsableTimestamp)
    } else {
        Ok(
            (Consumption {
                from: (Timestamp { text: f.from }),
                to: (Timestamp { text: f.to }),
                cost: f.cost->0,
                unit_price: f.unit_price->0,
                unit_price_vat: f.unit_price_vat->0,
                energy: energy_units_of(f.consumption_unit, f.consumption),
            }),
        )
    }
}

impl Consumption {
    /// Normalize one consumption node.
    ///
    /// Cost, unit price and unit tax are mandatory; an unparseable interval
    /// boundary voids the record.  The quantity is kept only when its unit is
    /// exactly "kWh".
    pub fn new(f: ConsumptionFields) -> (r: Result<Consumption, NormalizeError>)
        ensures
            r == consumption_of(f),
            r is Ok <==> f.cost is Some && f.unit_price is Some && f.unit_price_vat is Some
                && rfc3339_ok(f.from@) && rfc3339_ok(f.to@),
            r matches Ok(c) ==> c.energy == energy_units_of(f.consumption_unit, f.consumption),
            r matches Ok(c) ==> c.from.valid() && c.to.valid(),
    {
        let ConsumptionFields { from, to, cost, unit_price, unit_price_vat, consumption, consumption_unit } = f;
        let cost = match cost {
            Some(c) => c,
            None => {
                return Err(NormalizeError::MissingMandatoryField);
            },
        };
        let unit_price = match unit_price {
            Some(p) => p,
            None => {
                return Err(NormalizeError::MissingMandatoryField);
            },
        };
        let unit_price_vat = match unit_price_vat {
            Some(v) => v,
            None => {
                return Err(NormalizeError::MissingMandatoryField);
            },
        };
        if !parses_as_rfc3339(from.as_str()) || !parses_as_rfc3339(to.as_str()) {
            return Err(NormalizeError::UnparsableTimestamp);
        }
        Ok(
            Consumption {
                from: Timestamp { text: from },
                to: Timestamp { text: to },
                cost,
                unit_price,
                unit_price_vat,
                energy: energy_units_from(consumption_unit, consumption),
            },
        )
    }
}

/// The normalization of one production node: profit, unit price and unit tax
/// are mandatory, and both interval boundaries must parse.
pub open spec fn production_of(f: ProductionFields) -> Result<Production, NormalizeError> {
    if f.profit is None || f.unit_price is None || f.unit_price_vat is None {
        Err(NormalizeError::MissingMandatoryField)
    } else if !rfc3339_ok(f.from@) || !rfc3339_ok(f.to@) {
        Err(NormalizeError::UnparsableTimestamp)
    } else {
        Ok(
            (Production {
                from: (Timestamp { text: f.from }),
                to: (Timestamp { text: f.to }),
                profit: f.profit->0,
                unit_price: f.unit_price->0,
                unit_price_vat: f.unit_price_vat->0,
                energy: energy_units_of(f.production_unit, f.production),
            }),
        )
    }
}

impl Production {
    /// Normalize one production node.
    ///
    /// Profit, unit price and unit tax are mandatory; an unparseable interval
    /// boundary voids the record.  The quantity is kept only when its unit is
    /// exactly "kWh".
    pub fn new(f: ProductionFields) -> (r: Result<Production, NormalizeError>)
        ensures
            r == production_of(f),
            r is Ok <==> f.profit is Some && f.unit_price is Some && f.unit_price_vat is Some
                && rfc3339_ok(f.from@) && rfc3339_ok(f.to@),
            r matches Ok(p) ==> p.energy == energy_units_of(f.production_unit, f.production),
            r matches Ok(p) ==> p.from.valid() && p.to.valid(),
    {
        let ProductionFields { from, to, profit, unit_price, unit_price_vat, production, production_unit } = f;
        let profit = match profit {
            Some(p) => p,
            None => {
                return Err(NormalizeError::MissingMandatoryField);
            },
        };
        let unit_price = match unit_price {
            Some(p) => p,
            None => {
                return Err(NormalizeError::MissingMandatoryField);
            },
        };
        let unit_price_vat = match unit_price_vat {
            Some(v) => v,
            None => {
                return Err(NormalizeError::MissingMandatoryField);
            },
        };
        if !parses_as_rfc3339(from.as_str()) || !parses_as_rfc3339(to.as_str()) {
            return Err(NormalizeError::UnparsableTimestamp);
        }
        Ok(
            Production {
                from: Timestamp { text: from },
                to: Timestamp { text: to },
                profit,
                unit_price,
                unit_price_vat,
                energy: energy_units_from(production_unit, production),
            },
        )
    }
}

/// The element function of consumption-list normalization.
pub open spec fn consumption_node_of(e: Option<ConsumptionFields>) -> Option<Consumption> {
    match e {
        Some(f) => match consumption_of(f) {
            Ok(c) => Some(c),
            Err(_) => None,
        },
        None => None,
    }
}

/// The element function as a value, so that every statement about the list
/// model speaks of one function.
pub open spec fn consumption_node_fn() -> spec_fn(Option<ConsumptionFields>) -> Option<
    Consumption,
> {
    |e: Option<ConsumptionFields>| consumption_node_of(e)
}

/// The best-effort normalization of a consumption history: null and
/// malformed nodes are dropped, well-formed ones keep their relative order.
pub open spec fn consumptions_of(s: Seq<Option<ConsumptionFields>>) -> Seq<Consumption> {
    s.filter_map(consumption_node_fn())
}

/// Normalize a list of consumption nodes.
///
/// Null elements and elements that fail their own normalization are silently
/// dropped; the records of the well-formed elements come back in their
/// original relative order.
pub fn consumption_list(nodes: Vec<Option<ConsumptionFields>>) -> (r: Vec<Consumption>)
    ensures
        r@ == consumptions_of(nodes@),
{
    let ghost orig = nodes@;
    let mut rest = nodes;
    let mut out: Vec<Consumption> = Vec::new();
    let ghost k: int = 0;
    while rest.len() != 0
        invariant
            0 <= k <= orig.len(),
            rest@ == orig.skip(k),
            out@ == consumptions_of(orig.take(k)),
        decreases rest@.len(),
    {
        let e = rest.remove(0);
        proof {
            assert(e == orig[k]);
            assert(rest@ =~= orig.skip(k + 1));
            orig.lemma_filter_map_take_succ(consumption_node_fn(), k);
        }
        match e {
            Some(cf) => {
                match Consumption::new(cf) {
                    Ok(c) => {
                        out.push(c);
                        proof {
                            assert(out@ =~= consumptions_of(orig.take(k + 1)));
                        }
                    },
                    Err(_) => {
                        proof {
                            assert(out@ =~= consumptions_of(orig.take(k + 1)));
                        }
                    },
                }
            },
            None => {
                proof {
                    assert(out@ =~= consumptions_of(orig.take(k + 1)));
                }
            },
        }
        proof {
            k = k + 1;
        }
    }
    proof {
        assert(orig.take(k) =~= orig);
    }
    out
}

/// Normalize a consumption history whose node collection may itself be
/// absent: absence is treated as an empty history.
pub fn consumption_history(nodes: Option<Vec<Option<ConsumptionFields>>>) -> (r: Vec<Consumption>)
    ensures
        nodes matches Some(v) ==> r@ == consumptions_of(v@),
        nodes is None ==> r@ == Seq::<Consumption>::empty(),
{
    match nodes {
        Some(v) => consumption_list(v),
        None => Vec::new(),
    }
}

/// The element function of production-list normalization.
pub open spec fn production_node_of(e: Option<ProductionFields>) -> Option<Production> {
    match e {
        Some(f) => match production_of(f) {
            Ok(p) => Some(p),
            Err(_) => None,
        },
        None => None,
    }
}

/// The element function as a value, so that every statement about the list
/// model speaks of one function.
pub open spec fn production_node_fn() -> spec_fn(Option<ProductionFields>) -> Option<Production> {
    |e: Option<ProductionFields>| production_node_of(e)
}

/// The best-effort normalization of a production history: null and malformed
/// nodes are dropped, well-formed ones keep their relative order.
pub open spec fn productions_of(s: Seq<Option<ProductionFields>>) -> Seq<Production> {
    s.filter_map(production_node_fn())
}

/// Normalize a list of production nodes.
///
/// Null elements and elements that fail their own normalization are silently
/// dropped; the records of the well-formed elements come back in their
/// original relative order.
pub fn production_list(nodes: Vec<Option<ProductionFields>>) -> (r: Vec<Production>)
    ensures
        r@ == productions_of(nodes@),
{
    let ghost orig = nodes@;
    let mut rest = nodes;
    let mut out: Vec<Production> = Vec::new();
    let ghost k: int = 0;
    while rest.len() != 0
        invariant
            0 <= k <= orig.len(),
            rest@ == orig.skip(k),
            out@ == productions_of(orig.take(k)),
        decreases rest@.len(),
    {
        let e = rest.remove(0);
        proof {
            assert(e == orig[k]);
            assert(rest@ =~= orig.skip(k + 1));
            orig.lemma_filter_map_take_succ(production_node_fn(), k);
        }
        match e {
            Some(pf) => {
                match Production::new(pf) {
                    Ok(p) => {
                        out.push(p);
                        proof {
                            assert(out@ =~= productions_of(orig.take(k + 1)));
                        }
                    },
                    Err(_) => {
                        proof {
                            assert(out@ =~= productions_of(orig.take(k + 1)));
                        }
                    },
                }
            },
            None => {
                proof {
                    assert(out@ =~= productions_of(orig.take(k + 1)));
                }
            },
        }
        proof {
            k = k + 1;
        }
    }
    proof {
        assert(orig.take(k) =~= orig);
    }
    out
}

/// Normalize a production history whose node collection may itself be
/// absent: absence is treated as an empty history.
pub fn production_history(nodes: Option<Vec<Option<ProductionFields>>>) -> (r: Vec<Production>)
    ensures
        nodes matches Some(v) ==> r@ == productions_of(v@),
        nodes is None ==> r@ == Seq::<Production>::empty(),
{
    match nodes {
        Some(v) => production_list(v),
        None => Vec::new(),
    }
}

} // verus!
