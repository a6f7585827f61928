//! Price normalization: one function for the three structurally equivalent
//! upstream shapes (current price, today's list, tomorrow's list).

use vstd::prelude::*;
use vstd::seq_lib::*;
use crate::fields::PriceFields;
use crate::strutil::str_eq;
use crate::timestamp::{parses_as_rfc3339, rfc3339_ok, Timestamp};
use crate::NormalizeError;

verus! {

/// Bound on the fixed-point amounts fed to price normalization; it keeps the
/// derived component representable in `i64` whatever combination of fields is
/// present.
pub const MAX_AMOUNT: i64 = 1_000_000_000_000_000_000;

/// An amount small enough for component derivation.
pub open spec fn amount_ok(a: i64) -> bool {
    -MAX_AMOUNT <= a && a <= MAX_AMOUNT
}

/// All amounts of one price node are within [`amount_ok`].
pub open spec fn amounts_ok(f: PriceFields) -> bool {
    &&& (f.total matches Some(t) ==> amount_ok(t))
    &&& (f.energy matches Some(e) ==> amount_ok(e))
    &&& (f.tax matches Some(t) ==> amount_ok(t))
}

/// Price level relative to a rolling average.
#[derive(Debug, Clone, PartialEq, Eq)]
pub enum PriceLevel {
    /// Much lower than average.
    VeryCheap,
    /// Lower than average.
    Cheap,
    /// Around average.
    Normal,
    /// Higher than average.
    Expensive,
    /// Much higher than average.
    VeryExpensive,
    /// An unrecognized level tag, kept verbatim.
    Other(String),
    /// No level was reported.
    Unspecified,
}

/// Price information for one interval.
#[derive(Debug, Clone, PartialEq, Eq)]
pub struct PriceInfo {
    /// Total price.
    pub total: i64,
    /// Energy cost component of the price.
    pub energy: i64,
    /// Taxes added to the energy cost.
    pub tax: i64,
    /// When the pricing interval started.
    pub starts_at: Timestamp,
    /// The currency the price is set in.
    pub currency: String,
    /// Classification of the price relative to the average.
    pub level: PriceLevel,
}

/// The level tags that map to a dedicated variant.
pub open spec fn known_price_level(t: Seq<char>) -> bool {
    ||| t == "VERY_CHEAP"@
    ||| t == "CHEAP"@
    ||| t == "NORMAL"@
    ||| t == "EXPENSIVE"@
    ||| t == "VERY_EXPENSIVE"@
}

/// How a reported level tag maps to [`PriceLevel`]: known tags map to their
/// variant, an unrecognized tag is kept verbatim in `Other`, and an absent
/// level is `Unspecified`.
pub open spec fn price_level_of(level: Option<String>) -> PriceLevel {
    match level {
        Some(s) => {
            if s@ == "VERY_CHEAP"@ {
                PriceLevel::VeryCheap
            } else if s@ == "CHEAP"@ {
                PriceLevel::Cheap
            } else if s@ == "NORMAL"@ {
                PriceLevel::Normal
            } else if s@ == "EXPENSIVE"@ {
                PriceLevel::Expensive
            } else if s@ == "VERY_EXPENSIVE"@ {
                PriceLevel::VeryExpensive
            } else {
                PriceLevel::Other(s)
            }
        },
        None => PriceLevel::Unspecified,
    }
}

/// The energy component: taken as supplied when present, else derived from
/// the total and the tax, else equal to the total.
pub open spec fn reconciled_energy(total: i64, energy: Option<i64>, tax: Option<i64>) -> int {
    match energy {
        Some(e) => e as int,
        None => match tax {
            Some(t) => total - t,
            None => total as int,
        },
    }
}

/// The tax component: taken as supplied when present, else derived from the
/// total and the energy, else zero.
pub open spec fn reconciled_tax(total: i64, energy: Option<i64>, tax: Option<i64>) -> int {
    match tax {
        Some(t) => t as int,
        None => match energy {
            Some(e) => total - e,
            None => 0,
        },
    }
}

/// The normalization of one price node: the total and a parseable start
/// timestamp are mandatory, the components are reconciled, and the level tag
/// is mapped with its fallback.
pub open spec fn price_of(f: PriceFields) -> Result<PriceInfo, NormalizeError> {
    if f.total is None {
        Err(NormalizeError::MissingMandatoryField)
    } else if f.starts_at is None {
        Err(NormalizeError::MissingMandatoryField)
    } else if !rfc3339_ok((f.starts_at->0)@) {
        Err(NormalizeError::UnparsableTimestamp)
    } else {
        Ok(
            (PriceInfo {
                total: f.total->0,
                energy: reconciled_energy(f.total->0, f.energy, f.tax) as i64,
                tax: reconciled_tax(f.total->0, f.energy, f.tax) as i64,
                starts_at: (Timestamp { text: f.starts_at->0 }),
                currency: f.currency,
                level: price_level_of(f.level),
            }),
        )
    }
}

impl PriceInfo {
    /// Normalize one price node.
    ///
    /// The total is mandatory; a missing or unparseable start timestamp voids
    /// the record.  When only one of energy/tax is supplied the other is
    /// derived from the total; when neither is, the energy is the total and
    /// the tax is zero.
    pub fn new(f: PriceFields) -> (r: Result<PriceInfo, NormalizeError>)
        requires
            amounts_ok(f),
        ensures
            r == price_of(f),
            r is Ok <==> f.total is Some && f.starts_at is Some && rfc3339_ok((f.starts_at->0)@),
            r matches Ok(p) ==> p.total == f.total->0,
            r matches Ok(p) ==> p.energy == reconciled_energy(f.total->0, f.energy, f.tax),
            r matches Ok(p) ==> p.tax == reconciled_tax(f.total->0, f.energy, f.tax),
            r matches Ok(p) ==> (!(f.energy is Some && f.tax is Some) ==> p.energy + p.tax
                == p.total),
            r matches Ok(p) ==> p.starts_at.valid(),
    {
        let PriceFields { total, energy, tax, starts_at, currency, level } = f;
        let total = match total {
            Some(t) => t,
            None => {
                return Err(NormalizeError::MissingMandatoryField);
            },
        };
        let starts_at = match starts_at {
            Some(s) => s,
            None => {
                return Err(NormalizeError::MissingMandatoryField);
            },
        };
        if !parses_as_rfc3339(starts_at.as_str()) {
            return Err(NormalizeError::UnparsableTimestamp);
        }
        let energy_v: i64 = match energy {
            Some(e) => e,
            None => match tax {
                Some(t) => total - t,
                None => total,
            },
        };
        let tax_v: i64 = match tax {
            Some(t) => t,
            None => match energy {
                Some(e) => total - e,
                None => 0,
            },
        };
        let level_v = match level {
            Some(s) => {
                if str_eq(s.as_str(), "VERY_CHEAP") {
                    PriceLevel::VeryCheap
                } else if str_eq(s.as_str(), "CHEAP") {
                    PriceLevel::Cheap
                } else if str_eq(s.as_str(), "NORMAL") {
                    PriceLevel::Normal
                } else if str_eq(s.as_str(), "EXPENSIVE") {
                    PriceLevel::Expensive
                } else if str_eq(s.as_str(), "VERY_EXPENSIVE") {
                    PriceLevel::VeryExpensive
                } else {
                    PriceLevel::Other(s)
                }
            },
            None => PriceLevel::Unspecified,
        };
        Ok(
            PriceInfo {
                total,
                energy: energy_v,
                tax: tax_v,
                starts_at: Timestamp { text: starts_at },
                currency,
                level: level_v,
            },
        )
    }
}

/// The element function of price-list normalization: a null element or one
/// whose own normalization fails yields nothing.
pub open spec fn price_node_of(e: Option<PriceFields>) -> Option<PriceInfo> {
    match e {
        Some(f) => match price_of(f) {
            Ok(p) => Some(p),
            Err(_) => None,
        },
        None => None,
    }
}

/// The element function as a value, so that every statement about the list
/// model speaks of one function.
pub open spec fn price_node_fn() -> spec_fn(Option<PriceFields>) -> Option<PriceInfo> {
    |e: Option<PriceFields>| price_node_of(e)
}

/// The best-effort normalization of a price list: null and malformed
/// elements are dropped, well-formed ones keep their relative order.
pub open spec fn prices_of(s: Seq<Option<PriceFields>>) -> Seq<PriceInfo> {
    s.filter_map(price_node_fn())
}

/// Every present node of the list has amounts within [`amount_ok`].
pub open spec fn price_nodes_ok(s: Seq<Option<PriceFields>>) -> bool {
    forall|i: int|
        0 <= i < s.len() ==> (#[trigger] s[i] matches Some(f) ==> amounts_ok(f))
}

/// Normalize a list of price nodes (today's or tomorrow's prices).
///
/// Null elements and elements that fail their own normalization are silently
/// dropped; the records of the well-formed elements come back in their
/// original relative order.
pub fn price_list(nodes: Vec<Option<PriceFields>>) -> (r: Vec<PriceInfo>)
    requires
        price_nodes_ok(nodes@),
    ensures
        r@ == prices_of(nodes@),
{
    let ghost orig = nodes@;
    let mut rest = nodes;
    let mut out: Vec<PriceInfo> = Vec::new();
    let ghost k: int = 0;
    while rest.len() != 0
        invariant
            0 <= k <= orig.len(),
            rest@ == orig.skip(k),
            out@ == prices_of(orig.take(k)),
            price_nodes_ok(orig),
        decreases rest@.len(),
    {
        let e = rest.remove(0);
        proof {
            assert(e == orig[k]);
            assert(rest@ =~= orig.skip(k + 1));
            orig.lemma_filter_map_take_succ(price_node_fn(), k);
        }
        match e {
            Some(pf) => {
                match PriceInfo::new(pf) {
                    Ok(p) => {
                        out.push(p);
                        proof {
                            assert(out@ =~= prices_of(orig.take(k + 1)));
                        }
                    },
                    Err(_) => {
                        proof {
                            assert(out@ =~= prices_of(orig.take(k + 1)));
                        }
                    },
                }
            },
            None => {
                proof {
                    assert(out@ =~= prices_of(orig.take(k + 1)));
                }
            },
        }
        proof {
            k = k + 1;
        }
    }
    proof {
        assert(orig.take(k) =~= orig);
    }
    out
}

} // verus!
