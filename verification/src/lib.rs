//! Typed domain model for a GraphQL energy-data API, with a verified
//! normalization layer.
//!
//! The crate turns loosely-typed, field-optional response shapes (one per
//! query: user, home, current price, today's / tomorrow's prices, consumption
//! and production history) into strongly-typed domain records.  Transport is
//! left to the caller: the library receives plain field bundles and returns
//! either a fully-populated record or a typed failure.
//!
//! Monetary amounts and energy quantities are fixed-point integers: the caller
//! picks a scale (such as micro-units of currency) and uses it consistently;
//! the normalization rules are scale-independent.

use vstd::prelude::*;

pub mod fields;
pub mod history;
pub mod house;
pub mod laws;
pub mod price;
pub mod strutil;
pub mod timestamp;
pub mod user;

pub use fields::{
    AddressFields, ConsumptionFields, FeaturesFields, HouseFields, PriceFields, ProductionFields,
    UserFields,
};
pub use history::{Consumption, EnergyUnits, Production, TimeResolution};
pub use house::{Address, Features, HeatingSource, House, HouseType};
pub use price::{PriceInfo, PriceLevel};
pub use timestamp::Timestamp;
pub use user::{HomeId, User};

verus! {

/// Why a record could not be normalized.
#[derive(Debug, Clone, PartialEq, Eq)]
pub enum NormalizeError {
    /// A field that is mandatory for the requested record is absent.
    MissingMandatoryField,
    /// A timestamp field is present but is not a valid RFC 3339 string.
    UnparsableTimestamp,
}

/// A session towards the API; holds only the bearer token used by the
/// transport layer.
pub struct TibberSession {
    authentication: String,
}

impl View for TibberSession {
    type V = Seq<char>;

    closed spec fn view(&self) -> Seq<char> {
        self.authentication@
    }
}

impl TibberSession {
    /// Create a new session object holding the given API token.
    pub fn new(authentication: String) -> (r: Self)
        ensures
            r@ == authentication@,
    {
        TibberSession { authentication }
    }

    /// The bearer token this session was created with.
    pub fn token(&self) -> (r: &str)
        ensures
            r@ == self@,
    {
        self.authentication.as_str()
    }
}

} // verus!
