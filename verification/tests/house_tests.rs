use tibber::{Address, AddressFields, FeaturesFields, HeatingSource, House, HouseFields, HouseType};

fn base_house(size: Option<i64>) -> HouseFields {
    HouseFields {
        time_zone: String::from("Europe/Oslo"),
        app_nickname: Some(String::from("Cabin")),
        size,
        house_type: String::from("HOUSE"),
        number_of_residents: Some(2),
        primary_heating_source: Some(String::from("GROUND")),
        has_ventilation_system: Some(false),
        main_fuse_size: Some(25),
        address: None,
        features: None,
    }
}

fn empty_address() -> AddressFields {
    AddressFields {
        address1: None,
        address2: None,
        address3: None,
        postal_code: None,
        city: None,
        country: None,
        latitude: None,
        longitude: None,
    }
}

#[test]
fn negative_size_is_treated_as_absent() {
    let h = House::new(base_house(Some(-5)));
    assert_eq!(h.size, None);
    assert_eq!(h.time_zone, String::from("Europe/Oslo"));
}

#[test]
fn negative_residents_and_fuse_are_treated_as_absent() {
    let mut f = base_house(Some(120));
    f.number_of_residents = Some(-1);
    f.main_fuse_size = Some(-25);
    let h = House::new(f);
    assert_eq!(h.number_of_residents, None);
    assert_eq!(h.main_fuse_size, None);
    assert_eq!(h.size, Some(120));
}

#[test]
fn non_negative_counts_are_kept() {
    let h = House::new(base_house(Some(120)));
    assert_eq!(h.size, Some(120));
    assert_eq!(h.number_of_residents, Some(2));
    assert_eq!(h.main_fuse_size, Some(25));
}

#[test]
fn known_house_type_tags_map_to_their_variants() {
    assert_eq!(HouseType::new(String::from("APARTMENT")), HouseType::Apartment);
    assert_eq!(HouseType::new(String::from("ROWHOUSE")), HouseType::RowHouse);
    assert_eq!(HouseType::new(String::from("HOUSE")), HouseType::House);
    assert_eq!(HouseType::new(String::from("COTTAGE")), HouseType::Cottage);
}

#[test]
fn unknown_house_type_tag_is_preserved_verbatim() {
    let t = HouseType::new(String::from("HOUSEBOAT"));
    assert_eq!(t, HouseType::Other(String::from("HOUSEBOAT")));
}

#[test]
fn known_heating_source_tags_map_to_their_variants() {
    assert_eq!(
        HeatingSource::new(Some(String::from("AIR2AIR_HEATPUMP"))),
        HeatingSource::Air2AairHeatPump
    );
    assert_eq!(HeatingSource::new(Some(String::from("ELECTRICITY"))), HeatingSource::Electricity);
    assert_eq!(HeatingSource::new(Some(String::from("GROUND"))), HeatingSource::Ground);
    assert_eq!(
        HeatingSource::new(Some(String::from("DISTRICT_HEATING"))),
        HeatingSource::DistrictHeating
    );
    assert_eq!(
        HeatingSource::new(Some(String::from("ELECTRIC_BOILER"))),
        HeatingSource::ElectricBoiler
    );
    assert_eq!(
        HeatingSource::new(Some(String::from("AIR2WATER_HEATPUMP"))),
        HeatingSource::Air2WaterHeatPump
    );
}

#[test]
fn heating_source_other_tag_carries_no_payload() {
    assert_eq!(HeatingSource::new(Some(String::from("OTHER"))), HeatingSource::Other(None));
}

#[test]
fn unknown_heating_source_tag_is_preserved_verbatim() {
    let s = HeatingSource::new(Some(String::from("LAVA")));
    assert_eq!(s, HeatingSource::Other(Some(String::from("LAVA"))));
}

#[test]
fn absent_heating_source_is_unknown() {
    assert_eq!(HeatingSource::new(None), HeatingSource::Unknown);
}

#[test]
fn missing_features_block_defaults_to_absence() {
    let h = House::new(base_house(None));
    assert_eq!(h.features.real_time_consumption_enabled, None);
}

#[test]
fn present_features_block_is_copied() {
    let mut f = base_house(None);
    f.features = Some(FeaturesFields { real_time_consumption_enabled: Some(true) });
    let h = House::new(f);
    assert_eq!(h.features.real_time_consumption_enabled, Some(true));
}

#[test]
fn address_fields_are_copied() {
    let mut a = empty_address();
    a.address1 = Some(String::from("Storgata 1"));
    a.postal_code = Some(String::from("0155"));
    a.city = Some(String::from("Oslo"));
    let r = Address::new(a);
    assert_eq!(r.address1, Some(String::from("Storgata 1")));
    assert_eq!(r.postal_code, Some(String::from("0155")));
    assert_eq!(r.city, Some(String::from("Oslo")));
    assert_eq!(r.country, None);
}

#[test]
fn numeric_coordinates_are_kept() {
    let mut a = empty_address();
    a.latitude = Some(String::from("59.334591"));
    a.longitude = Some(String::from("-10.5"));
    let r = Address::new(a);
    assert_eq!(r.latitude, Some(String::from("59.334591")));
    assert_eq!(r.longitude, Some(String::from("-10.5")));
}

#[test]
fn signed_and_integer_coordinates_are_kept() {
    let mut a = empty_address();
    a.latitude = Some(String::from("+7"));
    a.longitude = Some(String::from("0"));
    let r = Address::new(a);
    assert_eq!(r.latitude, Some(String::from("+7")));
    assert_eq!(r.longitude, Some(String::from("0")));
}

#[test]
fn malformed_coordinates_silently_yield_absence() {
    let mut a = empty_address();
    a.latitude = Some(String::from("redacted"));
    a.longitude = Some(String::from("10.2.3"));
    let r = Address::new(a);
    assert_eq!(r.latitude, None);
    assert_eq!(r.longitude, None);
}

#[test]
fn bare_dot_coordinates_are_kept_but_empty_is_absent() {
    let mut a = empty_address();
    a.latitude = Some(String::from("1."));
    a.longitude = Some(String::from(""));
    let r = Address::new(a);
    assert_eq!(r.latitude, Some(String::from("1.")));
    assert_eq!(r.longitude, None);
    let mut b = empty_address();
    b.latitude = Some(String::from(".5"));
    b.longitude = Some(String::from("."));
    let r = Address::new(b);
    assert_eq!(r.latitude, Some(String::from(".5")));
    assert_eq!(r.longitude, None);
}

#[test]
fn exponent_coordinates_are_kept() {
    let mut a = empty_address();
    a.latitude = Some(String::from("1e3"));
    a.longitude = Some(String::from("-2.5E-7"));
    let r = Address::new(a);
    assert_eq!(r.latitude, Some(String::from("1e3")));
    assert_eq!(r.longitude, Some(String::from("-2.5E-7")));
}

#[test]
fn keyword_coordinates_are_kept_case_insensitively() {
    let mut a = empty_address();
    a.latitude = Some(String::from("-inf"));
    a.longitude = Some(String::from("NaN"));
    let r = Address::new(a);
    assert_eq!(r.latitude, Some(String::from("-inf")));
    assert_eq!(r.longitude, Some(String::from("NaN")));
    let mut b = empty_address();
    b.latitude = Some(String::from("Infinity"));
    b.longitude = Some(String::from("INFINIT"));
    let r = Address::new(b);
    assert_eq!(r.latitude, Some(String::from("Infinity")));
    assert_eq!(r.longitude, None);
}

#[test]
fn malformed_exponents_yield_absence() {
    let mut a = empty_address();
    a.latitude = Some(String::from("e5"));
    a.longitude = Some(String::from("5e"));
    let r = Address::new(a);
    assert_eq!(r.latitude, None);
    assert_eq!(r.longitude, None);
    let mut b = empty_address();
    b.latitude = Some(String::from("5e+"));
    b.longitude = Some(String::from("1e3.5"));
    let r = Address::new(b);
    assert_eq!(r.latitude, None);
    assert_eq!(r.longitude, None);
}

#[test]
fn coordinate_acceptance_matches_float_parsing() {
    let samples: Vec<&str> = vec![
        "59.334591", "-10.5", "+7", "0", "1.", ".5", "1e3", "1E-7", "+.5e+2", "inf", "INF",
        "-infinity", "NaN", "nan", "", ".", "e5", "5e", "5e+", "1e3.5", "10.2.3", "redacted",
        "--5", "+-5", "5 ", " 5", "in", "infinit", "infinityy", "0x10", "1_000", "+", "-", "+.",
        "2.5E7", "007", "3.", "-.5", "12.e5", ".e5", "+NaN", "iNf", "2e10", "-0", "1e", "E3",
        "inf3", "0.0e0",
    ];
    for t in samples {
        let mut a = empty_address();
        a.latitude = Some(String::from(t));
        let r = Address::new(a);
        let expected = t.parse::<f64>().is_ok();
        assert_eq!(r.latitude.is_some(), expected, "{}", t);
    }
}

#[test]
fn house_with_address_keeps_the_normalized_address() {
    let mut f = base_house(None);
    let mut a = empty_address();
    a.latitude = Some(String::from("59.3"));
    a.longitude = Some(String::from("abc"));
    f.address = Some(a);
    let h = House::new(f);
    let addr = h.address.unwrap();
    assert_eq!(addr.latitude, Some(String::from("59.3")));
    assert_eq!(addr.longitude, None);
}

#[test]
fn counts_above_u32_range_are_treated_as_absent() {
    let mut f = base_house(Some(4_294_967_296));
    f.main_fuse_size = Some(4_294_967_295);
    let h = House::new(f);
    assert_eq!(h.size, None);
    assert_eq!(h.main_fuse_size, Some(4_294_967_295));
}
