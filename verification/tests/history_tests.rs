use tibber::{
    Consumption, ConsumptionFields, EnergyUnits, NormalizeError, Production, ProductionFields,
    TimeResolution,
};
use tibber::history::{consumption_history, consumption_list, production_history, production_list};

fn consumption_node(cost: Option<i64>) -> ConsumptionFields {
    ConsumptionFields {
        from: String::from("2022-01-01T00:00:00+01:00"),
        to: String::from("2022-01-01T01:00:00+01:00"),
        cost,
        unit_price: Some(1_000_000),
        unit_price_vat: Some(100_000),
        consumption: Some(500_000),
        consumption_unit: Some(String::from("kWh")),
    }
}

fn production_node(profit: Option<i64>) -> ProductionFields {
    ProductionFields {
        from: String::from("2022-01-01T00:00:00+01:00"),
        to: String::from("2022-01-01T01:00:00+01:00"),
        profit,
        unit_price: Some(1_000_000),
        unit_price_vat: Some(100_000),
        production: Some(500_000),
        production_unit: Some(String::from("kWh")),
    }
}

#[test]
fn non_kwh_unit_yields_unspecified_energy_but_keeps_the_record() {
    let mut f = consumption_node(Some(2_000_000));
    f.consumption_unit = Some(String::from("Wh"));
    f.consumption = Some(500);
    let c = Consumption::new(f).unwrap();
    assert_eq!(c.energy, EnergyUnits::Unspecified);
    assert_eq!(c.cost, 2_000_000);
    assert_eq!(c.unit_price, 1_000_000);
    assert_eq!(c.unit_price_vat, 100_000);
}

#[test]
fn kwh_quantity_is_kept() {
    let c = Consumption::new(consumption_node(Some(2_000_000))).unwrap();
    assert_eq!(c.energy, EnergyUnits::kWh(500_000));
}

#[test]
fn kwh_unit_without_quantity_is_unspecified() {
    let mut f = consumption_node(Some(2_000_000));
    f.consumption = None;
    let c = Consumption::new(f).unwrap();
    assert_eq!(c.energy, EnergyUnits::Unspecified);
}

#[test]
fn missing_unit_is_unspecified() {
    let mut f = consumption_node(Some(2_000_000));
    f.consumption_unit = None;
    let c = Consumption::new(f).unwrap();
    assert_eq!(c.energy, EnergyUnits::Unspecified);
}

#[test]
fn missing_cost_voids_the_consumption_record() {
    let e = Consumption::new(consumption_node(None)).unwrap_err();
    assert_eq!(e, NormalizeError::MissingMandatoryField);
}

#[test]
fn missing_unit_price_voids_the_consumption_record() {
    let mut f = consumption_node(Some(1));
    f.unit_price = None;
    assert_eq!(Consumption::new(f).unwrap_err(), NormalizeError::MissingMandatoryField);
}

#[test]
fn missing_unit_price_vat_voids_the_consumption_record() {
    let mut f = consumption_node(Some(1));
    f.unit_price_vat = None;
    assert_eq!(Consumption::new(f).unwrap_err(), NormalizeError::MissingMandatoryField);
}

#[test]
fn unparseable_interval_boundary_voids_the_consumption_record() {
    let mut f = consumption_node(Some(1));
    f.from = String::from("last tuesday");
    assert_eq!(Consumption::new(f).unwrap_err(), NormalizeError::UnparsableTimestamp);
    let mut g = consumption_node(Some(1));
    g.to = String::from("2022-01-01T01:00:00");
    assert_eq!(Consumption::new(g).unwrap_err(), NormalizeError::UnparsableTimestamp);
}

#[test]
fn consumption_interval_text_is_kept_verbatim() {
    let c = Consumption::new(consumption_node(Some(1))).unwrap();
    assert_eq!(c.from.as_str(), "2022-01-01T00:00:00+01:00");
    assert_eq!(c.to.as_str(), "2022-01-01T01:00:00+01:00");
}

#[test]
fn missing_profit_voids_the_production_record() {
    let e = Production::new(production_node(None)).unwrap_err();
    assert_eq!(e, NormalizeError::MissingMandatoryField);
}

#[test]
fn production_record_is_normalized_like_consumption() {
    let mut f = production_node(Some(3_000_000));
    f.production_unit = Some(String::from("MWh"));
    let p = Production::new(f).unwrap();
    assert_eq!(p.profit, 3_000_000);
    assert_eq!(p.energy, EnergyUnits::Unspecified);
}

#[test]
fn consumption_list_drops_malformed_nodes_keeping_order() {
    let nodes: Vec<Option<ConsumptionFields>> = vec![
        Some(consumption_node(Some(1_000_000))),
        None,
        Some(consumption_node(None)),
        Some(consumption_node(Some(4_000_000))),
    ];
    let out: Vec<Consumption> = consumption_list(nodes);
    assert_eq!(out.len(), 2);
    assert_eq!(out[0].cost, 1_000_000);
    assert_eq!(out[1].cost, 4_000_000);
}

#[test]
fn production_list_drops_malformed_nodes_keeping_order() {
    let mut bad = production_node(Some(2_000_000));
    bad.from = String::from("nope");
    let nodes: Vec<Option<ProductionFields>> = vec![
        Some(production_node(Some(1_000_000))),
        Some(bad),
        Some(production_node(Some(5_000_000))),
    ];
    let out: Vec<Production> = production_list(nodes);
    assert_eq!(out.len(), 2);
    assert_eq!(out[0].profit, 1_000_000);
    assert_eq!(out[1].profit, 5_000_000);
}

#[test]
fn resolution_tags_match_the_upstream_enum_values() {
    assert_eq!(TimeResolution::Hourly.tag(), "HOURLY");
    assert_eq!(TimeResolution::Daily.tag(), "DAILY");
    assert_eq!(TimeResolution::Weekly.tag(), "WEEKLY");
    assert_eq!(TimeResolution::Monthly.tag(), "MONTHLY");
    assert_eq!(TimeResolution::Annual.tag(), "ANNUAL");
}

#[test]
fn absent_consumption_collection_is_an_empty_history() {
    let out: Vec<Consumption> = consumption_history(None);
    assert_eq!(out.len(), 0);
}

#[test]
fn present_consumption_collection_is_normalized() {
    let nodes: Vec<Option<ConsumptionFields>> = vec![
        Some(consumption_node(Some(1_000_000))),
        Some(consumption_node(None)),
    ];
    let out: Vec<Consumption> = consumption_history(Some(nodes));
    assert_eq!(out.len(), 1);
    assert_eq!(out[0].cost, 1_000_000);
}

#[test]
fn absent_production_collection_is_an_empty_history() {
    let out: Vec<Production> = production_history(None);
    assert_eq!(out.len(), 0);
}
