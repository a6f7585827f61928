//! The loosely-typed input shapes of the normalizer.
//!
//! Each struct mirrors one upstream response shape after schema
//! deserialization: every field that GraphQL may omit is an `Option`.  The
//! transport layer fills these bundles with plain values and hands them to
//! the normalization functions, which produce the strongly-typed records.
//!
//! Monetary amounts and energy quantities are fixed-point integers in a scale
//! the caller picks (for instance micro-units of currency); timestamps and
//! coordinates arrive as text.

use vstd::prelude::*;

verus! {

/// One price node: current price, or an element of the today/tomorrow lists.
#[derive(Debug, Clone, PartialEq, Eq)]
pub struct PriceFields {
    /// Total price for the interval; mandatory.
    pub total: Option<i64>,
    /// Energy component of the price.
    pub energy: Option<i64>,
    /// Tax component of the price.
    pub tax: Option<i64>,
    /// Interval start, as RFC 3339 text; mandatory and must parse.
    pub starts_at: Option<String>,
    /// Currency code.
    pub currency: String,
    /// Price-level tag, such as "NORMAL".
    pub level: Option<String>,
}

/// The current-user response shape.
#[derive(Debug, Clone, PartialEq, Eq)]
pub struct UserFields {
    /// Login name; mandatory.
    pub login: Option<String>,
    /// User id; mandatory.
    pub user_id: Option<String>,
    /// Legal name; mandatory.
    pub name: Option<String>,
    /// Account-type tags.
    pub account_type: Vec<String>,
    /// Ids of the user's homes; null elements are skipped.
    pub homes: Vec<Option<String>>,
}

/// The address block of a home.
#[derive(Debug, Clone, PartialEq, Eq)]
pub struct AddressFields {
    /// Street address.
    pub address1: Option<String>,
    /// Supplemental address information.
    pub address2: Option<String>,
    /// Supplemental address information.
    pub address3: Option<String>,
    /// Post code.
    pub postal_code: Option<String>,
    /// City.
    pub city: Option<String>,
    /// Country.
    pub country: Option<String>,
    /// Latitude as a decimal string.
    pub latitude: Option<String>,
    /// Longitude as a decimal string.
    pub longitude: Option<String>,
}

/// The features block of a home.
#[derive(Debug, Clone, PartialEq, Eq)]
pub struct FeaturesFields {
    /// Whether real-time consumption metering is enabled.
    pub real_time_consumption_enabled: Option<bool>,
}

/// The home-metadata response shape.
#[derive(Debug, Clone, PartialEq, Eq)]
pub struct HouseFields {
    /// Time zone of the home; the one mandatory field.
    pub time_zone: String,
    /// Nickname given in the app.
    pub app_nickname: Option<String>,
    /// Size in square meters.
    pub size: Option<i64>,
    /// Building-category tag, such as "APARTMENT".
    pub house_type: String,
    /// Number of residents.
    pub number_of_residents: Option<i64>,
    /// Heating-source tag, such as "GROUND".
    pub primary_heating_source: Option<String>,
    /// Whether the building has a ventilation system.
    pub has_ventilation_system: Option<bool>,
    /// Main fuse size in amperes.
    pub main_fuse_size: Option<i64>,
    /// Address block.
    pub address: Option<AddressFields>,
    /// Features block.
    pub features: Option<FeaturesFields>,
}

/// One consumption-history node.
#[derive(Debug, Clone, PartialEq, Eq)]
pub struct ConsumptionFields {
    /// Interval start, as RFC 3339 text; must parse.
    pub from: String,
    /// Interval end, as RFC 3339 text; must parse.
    pub to: String,
    /// Cost of the consumed energy; mandatory.
    pub cost: Option<i64>,
    /// Price per unit; mandatory.
    pub unit_price: Option<i64>,
    /// Tax per unit; mandatory.
    pub unit_price_vat: Option<i64>,
    /// Consumed quantity.
    pub consumption: Option<i64>,
    /// Unit of the quantity; only "kWh" is first-class.
    pub consumption_unit: Option<String>,
}

/// One production-history node.
#[derive(Debug, Clone, PartialEq, Eq)]
pub struct ProductionFields {
    /// Interval start, as RFC 3339 text; must parse.
    pub from: String,
    /// Interval end, as RFC 3339 text; must parse.
    pub to: String,
    /// Profit from the produced energy; mandatory.
    pub profit: Option<i64>,
    /// Price per unit; mandatory.
    pub unit_price: Option<i64>,
    /// Tax per unit; mandatory.
    pub unit_price_vat: Option<i64>,
    /// Produced quantity.
    pub production: Option<i64>,
    /// Unit of the quantity; only "kWh" is first-class.
    pub production_unit: Option<String>,
}

} // verus!
