//! Home-metadata normalization: building category, heating source, address
//! and features.

use vstd::prelude::*;
use crate::fields::{AddressFields, FeaturesFields, HouseFields};
use crate::strutil::str_eq;

verus! {

/// Type / building-category of a house.
#[derive(Debug, Clone, PartialEq, Eq)]
pub enum HouseType {
    /// An apartment in a block.
    Apartment,
    /// A unit in a row of houses.
    RowHouse,
    /// A free-standing house.
    House,
    /// A cottage or recreational house.
    Cottage,
    /// An unrecognized category tag, kept verbatim.
    Other(String),
}

/// Primary source of heating.
#[derive(Debug, Clone, PartialEq, Eq)]
pub enum HeatingSource {
    /// AC unit with inverter.
    Air2AairHeatPump,
    /// Electrical ovens.
    Electricity,
    /// Ground heat.
    Ground,
    /// Remote heating, typically water-borne.
    DistrictHeating,
    /// Electrical boiler with floor heating or radiators.
    ElectricBoiler,
    /// Heat pump extracting heat from a body of water.
    Air2WaterHeatPump,
    /// Reported as something else: either the dedicated tag for "other"
    /// (no payload) or an unrecognized tag, kept verbatim.
    Other(Option<String>),
    /// Not specified.
    Unknown,
}

/// Address of a home.
#[derive(Debug, Clone, PartialEq, Eq)]
pub struct Address {
    /// Street address.
    pub address1: Option<String>,
    /// Supplemental address information.
    pub address2: Option<String>,
    /// Supplemental address information.
    pub address3: Option<String>,
    /// Post code.
    pub postal_code: Option<String>,
    /// City.
    pub city: Option<String>,
    /// Country.
    pub country: Option<String>,
    /// Latitude, kept as its source text; present only when the upstream
    /// text parses as a floating-point number.
    pub latitude: Option<String>,
    /// Longitude, kept as its source text; present only when the upstream
    /// text parses as a floating-point number.
    pub longitude: Option<String>,
}

/// Other features of a home.
#[derive(Debug, Clone, PartialEq, Eq)]
pub struct Features {
    /// Whether real-time consumption metering is enabled.
    pub real_time_consumption_enabled: Option<bool>,
}

/// Information about a home.
#[derive(Debug, Clone, PartialEq, Eq)]
pub struct House {
    /// Time zone where the building is located.
    pub time_zone: String,
    /// Nickname given to the building in the app.
    pub app_nickname: Option<String>,
    /// Size of the house in square meters, if given and non-negative.
    pub size: Option<u32>,
    /// Type of building.
    pub house_type: HouseType,
    /// Number of residents, if given and non-negative.
    pub number_of_residents: Option<u32>,
    /// Primary heating source.
    pub primary_heating_source: HeatingSource,
    /// Whether the building has a ventilation system.
    pub has_ventilation_system: Option<bool>,
    /// Size of the main fuse in amperes, if given and non-negative.
    pub main_fuse_size: Option<u32>,
    /// Address information.
    pub address: Option<Address>,
    /// Other features.
    pub features: Features,
}

/// The building-category tags that map to a dedicated variant.
pub open spec fn known_house_type(t: Seq<char>) -> bool {
    ||| t == "APARTMENT"@
    ||| t == "ROWHOUSE"@
    ||| t == "HOUSE"@
    ||| t == "COTTAGE"@
}

/// How a building-category tag maps to [`HouseType`]: known tags map to
/// their variant, an unrecognized tag is kept verbatim in `Other`.
pub open spec fn house_type_of(tag: String) -> HouseType {
    if tag@ == "APARTMENT"@ {
        HouseType::Apartment
    } else if tag@ == "ROWHOUSE"@ {
        HouseType::RowHouse
    } else if tag@ == "HOUSE"@ {
        HouseType::House
    } else if tag@ == "COTTAGE"@ {
        HouseType::Cottage
    } else {
        HouseType::Other(tag)
    }
}

impl HouseType {
    /// Map an upstream building-category tag to a [`HouseType`].
    pub fn new(tag: String) -> (r: HouseType)
        ensures
            r == house_type_of(tag),
    {
        if str_eq(tag.as_str(), "APARTMENT") {
            HouseType::Apartment
        } else if str_eq(tag.as_str(), "ROWHOUSE") {
            HouseType::RowHouse
        } else if str_eq(tag.as_str(), "HOUSE") {
            HouseType::House
        } else if str_eq(tag.as_str(), "COTTAGE") {
            HouseType::Cottage
        } else {
            HouseType::Other(tag)
        }
    }
}

/// The heating-source tags that map to a dedicated variant.
pub open spec fn known_heating_source(t: Seq<char>) -> bool {
    ||| t == "AIR2AIR_HEATPUMP"@
    ||| t == "ELECTRICITY"@
    ||| t == "GROUND"@
    ||| t == "DISTRICT_HEATING"@
    ||| t == "ELECTRIC_BOILER"@
    ||| t == "AIR2WATER_HEATPUMP"@
}

/// How a heating-source tag maps to [`HeatingSource`]: known tags map to
/// their variant, the dedicated "OTHER" tag carries no payload, an
/// unrecognized tag is kept verbatim, and an absent tag is `Unknown`.
pub open spec fn heating_source_of(tag: Option<String>) -> HeatingSource {
    match tag {
        Some(s) => {
            if s@ == "AIR2AIR_HEATPUMP"@ {
                HeatingSource::Air2AairHeatPump
            } else if s@ == "ELECTRICITY"@ {
                HeatingSource::Electricity
            } else if s@ == "GROUND"@ {
                HeatingSource::Ground
            } else if s@ == "DISTRICT_HEATING"@ {
                HeatingSource::DistrictHeating
            } else if s@ == "ELECTRIC_BOILER"@ {
                HeatingSource::ElectricBoiler
            } else if s@ == "AIR2WATER_HEATPUMP"@ {
                HeatingSource::Air2WaterHeatPump
            } else if s@ == "OTHER"@ {
                HeatingSource::Other(None)
            } else {
                HeatingSource::Other(Some(s))
            }
        },
        None => HeatingSource::Unknown,
    }
}

impl HeatingSource {
    /// Map an upstream heating-source tag to a [`HeatingSource`].
    pub fn new(tag: Option<String>) -> (r: HeatingSource)
        ensures
            r == heating_source_of(tag),
    {
        match tag {
            Some(s) => {
                if str_eq(s.as_str(), "AIR2AIR_HEATPUMP") {
                    HeatingSource::Air2AairHeatPump
                } else if str_eq(s.as_str(), "ELECTRICITY") {
                    HeatingSource::Electricity
                } else if str_eq(s.as_str(), "GROUND") {
                    HeatingSource::Ground
                } else if str_eq(s.as_str(), "DISTRICT_HEATING") {
                    HeatingSource::DistrictHeating
                } else if str_eq(s.as_str(), "ELECTRIC_BOILER") {
                    HeatingSource::ElectricBoiler
                } else if str_eq(s.as_str(), "AIR2WATER_HEATPUMP") {
                    HeatingSource::Air2WaterHeatPump
                } else if str_eq(s.as_str(), "OTHER") {
                    HeatingSource::Other(None)
                } else {
                    HeatingSource::Other(Some(s))
                }
            },
            None => HeatingSource::Unknown,
        }
    }
}

/// Whether `c` is an ASCII digit (code points 48 through 57).
pub open spec fn is_digit_char(c: char) -> bool {
    48 <= c as u32 && c as u32 <= 57
}

/// Case-insensitive match of `a` against a lowercase ASCII letter `b`.
pub open spec fn char_eq_ci(a: char, b: char) -> bool {
    a == b || a as u32 == b as u32 - 32
}

/// The keywords of the float grammar -- "inf", "infinity" and "nan" --
/// matched case-insensitively.
pub open spec fn keyword_ok(s: Seq<char>) -> bool {
    ||| (s.len() == 3 && char_eq_ci(s[0], 'i') && char_eq_ci(s[1], 'n') && char_eq_ci(s[2], 'f'))
    ||| (s.len() == 8 && char_eq_ci(s[0], 'i') && char_eq_ci(s[1], 'n') && char_eq_ci(s[2], 'f')
        && char_eq_ci(s[3], 'i') && char_eq_ci(s[4], 'n') && char_eq_ci(s[5], 'i') && char_eq_ci(
        s[6],
        't',
    ) && char_eq_ci(s[7], 'y'))
    ||| (s.len() == 3 && char_eq_ci(s[0], 'n') && char_eq_ci(s[1], 'a') && char_eq_ci(s[2], 'n'))
}

/// One or more digits and nothing else.
pub open spec fn digits_nonempty(s: Seq<char>) -> bool {
    s.len() > 0 && (forall|i: int| 0 <= i < s.len() ==> is_digit_char(#[trigger] s[i]))
}

/// The mantissa of the float grammar: digits with at most one dot among
/// them, and at least one digit ("42", "4.2", "4.", ".2").
pub open spec fn mantissa_ok(s: Seq<char>) -> bool {
    &&& (forall|i: int| 0 <= i < s.len() ==> (is_digit_char(#[trigger] s[i]) || s[i] == '.'))
    &&& (forall|i: int, j: int|
        #![trigger s[i], s[j]]
        0 <= i < s.len() && 0 <= j < s.len() && s[i] == '.' && s[j] == '.' ==> i == j)
    &&& (exists|i: int| 0 <= i < s.len() && is_digit_char(#[trigger] s[i]))
}

/// The exponent part after the marker: an optional sign and one or more
/// digits.
pub open spec fn exponent_ok(s: Seq<char>) -> bool {
    if s.len() > 0 && (s[0] == '+' || s[0] == '-') {
        digits_nonempty(s.skip(1))
    } else {
        digits_nonempty(s)
    }
}

/// Whether `c` marks an exponent.
pub open spec fn is_exp_char(c: char) -> bool {
    c == 'e' || c == 'E'
}

/// A number of the float grammar: a mantissa, optionally followed by an
/// exponent marker and an exponent.
pub open spec fn number_ok(s: Seq<char>) -> bool {
    ||| mantissa_ok(s)
    ||| (exists|i: int|
        0 <= i < s.len() && is_exp_char(#[trigger] s[i]) && mantissa_ok(s.take(i)) && exponent_ok(
            s.skip(i + 1),
        ))
}

/// The body of float text, after any leading sign: one of the keywords, or
/// a number.
pub open spec fn float_body_ok(s: Seq<char>) -> bool {
    keyword_ok(s) || number_ok(s)
}

/// Whether `s` is float text: the grammar that parsing a string to a
/// floating-point number accepts -- an optional sign, then one of the
/// keywords "inf", "infinity" or "nan" (case-insensitive) or a number with
/// an optional exponent.  A coordinate is kept exactly when this holds of
/// its text.
pub open spec fn float_text_ok(s: Seq<char>) -> bool {
    if s.len() > 0 && (s[0] == '+' || s[0] == '-') {
        float_body_ok(s.skip(1))
    } else {
        float_body_ok(s)
    }
}

proof fn lemma_float_text_unfold(s: Seq<char>, start: int)
    requires
        0 <= start <= 1,
        start == 1 ==> s.len() > 0 && (s[0] == '+' || s[0] == '-'),
        start == 0 ==> s.len() == 0 || (s[0] != '+' && s[0] != '-'),
    ensures
        float_text_ok(s) == float_body_ok(s.skip(start)),
{
    if start == 0 {
        assert(s.skip(0) =~= s);
    }
}

fn ci_eq(c: char, lower: char) -> (b: bool)
    ensures
        b == char_eq_ci(c, lower),
{
    c == lower || c as u32 + 32 == lower as u32
}

fn keyword_at(s: &str, start: usize, n: usize) -> (b: bool)
    requires
        start <= n,
        n as nat == s@.len(),
    ensures
        b == keyword_ok(s@.skip(start as int)),
{
    let ghost body = s@.skip(start as int);
    proof {
        assert forall|j: int| 0 <= j < body.len() implies body[j] == s@[j + start] by {}
    }
    let len = n - start;
    if len == 3 {
        let c0 = s.get_char(start);
        let c1 = s.get_char(start + 1);
        let c2 = s.get_char(start + 2);
        let inf = ci_eq(c0, 'i') && ci_eq(c1, 'n') && ci_eq(c2, 'f');
        let nan = ci_eq(c0, 'n') && ci_eq(c1, 'a') && ci_eq(c2, 'n');
        inf || nan
    } else if len == 8 {
        let r = ci_eq(s.get_char(start), 'i') && ci_eq(s.get_char(start + 1), 'n') && ci_eq(
            s.get_char(start + 2),
            'f',
        ) && ci_eq(s.get_char(start + 3), 'i') && ci_eq(s.get_char(start + 4), 'n') && ci_eq(
            s.get_char(start + 5),
            'i',
        ) && ci_eq(s.get_char(start + 6), 't') && ci_eq(s.get_char(start + 7), 'y');
        r
    } else {
        false
    }
}

fn digits_range(s: &str, from: usize, to: usize) -> (b: bool)
    requires
        from <= to,
        to as nat <= s@.len(),
    ensures
        b == digits_nonempty(s@.subrange(from as int, to as int)),
{
    let ghost part = s@.subrange(from as int, to as int);
    proof {
        assert forall|j: int| 0 <= j < part.len() implies part[j] == s@[j + from] by {}
    }
    if from == to {
        return false;
    }
    let mut i: usize = from;
    while i < to
        invariant
            from <= i <= to,
            to as nat <= s@.len(),
            part == s@.subrange(from as int, to as int),
            forall|j: int| from <= j < i ==> is_digit_char(#[trigger] s@[j]),
        decreases to - i,
    {
        let c = s.get_char(i);
        let u = c as u32;
        if !(48 <= u && u <= 57) {
            proof {
                assert(part[i as int - from as int] == s@[i as int]);
                assert(!digits_nonempty(part));
            }
            return false;
        }
        i = i + 1;
    }
    proof {
        assert(digits_nonempty(part));
    }
    true
}

fn mantissa_range(s: &str, from: usize, to: usize) -> (b: bool)
    requires
        from <= to,
        to as nat <= s@.len(),
    ensures
        b == mantissa_ok(s@.subrange(from as int, to as int)),
{
    let ghost part = s@.subrange(from as int, to as int);
    proof {
        assert forall|j: int| 0 <= j < part.len() implies part[j] == s@[j + from] by {}
    }
    let mut dot: Option<usize> = None;
    let mut digit_seen = false;
    let mut i: usize = from;
    while i < to
        invariant
            from <= i <= to,
            to as nat <= s@.len(),
            part == s@.subrange(from as int, to as int),
            match dot {
                Some(d) => from <= d < i && s@[d as int] == '.' && (forall|j: int|
                    from <= j < i && j != d ==> is_digit_char(#[trigger] s@[j])),
                None => forall|j: int| from <= j < i ==> is_digit_char(#[trigger] s@[j]),
            },
            digit_seen <==> (exists|j: int| from <= j < i && is_digit_char(#[trigger] s@[j])),
        decreases to - i,
    {
        let c = s.get_char(i);
        let u = c as u32;
        if 48 <= u && u <= 57 {
            digit_seen = true;
            proof {
                assert(is_digit_char(s@[i as int]));
            }
        } else if c == '.' {
            match dot {
                Some(d) => {
                    proof {
                        assert(part[d as int - from as int] == s@[d as int]);
                        assert(part[i as int - from as int] == s@[i as int]);
                        assert(!mantissa_ok(part));
                    }
                    return false;
                },
                None => {
                    dot = Some(i);
                },
            }
        } else {
            proof {
                assert(part[i as int - from as int] == s@[i as int]);
                assert(!(is_digit_char(part[i as int - from as int]) || part[i as int - from
                    as int] == '.'));
                assert(!mantissa_ok(part));
            }
            return false;
        }
        i = i + 1;
    }
    if digit_seen {
        proof {
            let ghost w = choose|j: int| from <= j < to && is_digit_char(#[trigger] s@[j]);
            assert(part[w - from as int] == s@[w]);
            assert(mantissa_ok(part));
        }
        true
    } else {
        proof {
            assert(!mantissa_ok(part));
        }
        false
    }
}

fn exponent_range(s: &str, from: usize, to: usize) -> (b: bool)
    requires
        from <= to,
        to as nat <= s@.len(),
    ensures
        b == exponent_ok(s@.subrange(from as int, to as int)),
{
    let ghost part = s@.subrange(from as int, to as int);
    if from == to {
        return false;
    }
    let c0 = s.get_char(from);
    proof {
        assert(part[0] == s@[from as int]);
    }
    if c0 == '+' || c0 == '-' {
        let r = digits_range(s, from + 1, to);
        proof {
            assert(part.skip(1) =~= s@.subrange(from as int + 1, to as int));
        }
        r
    } else {
        digits_range(s, from, to)
    }
}

/// Whether `s` is float text, checked character by character.
fn is_float_text(s: &str) -> (b: bool)
    ensures
        b == float_text_ok(s@),
{
    let n = s.unicode_len();
    let mut start: usize = 0;
    if n > 0 {
        let c0 = s.get_char(0);
        if c0 == '+' || c0 == '-' {
            start = 1;
        }
    }
    proof {
        lemma_float_text_unfold(s@, start as int);
    }
    let ghost body = s@.skip(start as int);
    proof {
        assert forall|j: int| 0 <= j < body.len() implies body[j] == s@[j + start] by {}
    }
    if keyword_at(s, start, n) {
        return true;
    }
    let mut p: usize = start;
    let mut found = false;
    while p < n && !found
        invariant
            start <= p <= n,
            n as nat == s@.len(),
            !found ==> (forall|j: int| start <= j < p ==> !is_exp_char(#[trigger] s@[j])),
            found ==> p < n && is_exp_char(s@[p as int]) && (forall|j: int|
                start <= j < p ==> !is_exp_char(#[trigger] s@[j])),
        decreases n - p + (if found { 0int } else { 1int }),
    {
        let c = s.get_char(p);
        if c == 'e' || c == 'E' {
            found = true;
        } else {
            p = p + 1;
        }
    }
    if !found {
        let r = mantissa_range(s, start, n);
        proof {
            assert(body =~= s@.subrange(start as int, n as int));
            assert forall|i: int| 0 <= i < body.len() implies !is_exp_char(body[i]) by {
                assert(body[i] == s@[i + start]);
            }
            assert(number_ok(body) == mantissa_ok(body));
        }
        r
    } else {
        let m = mantissa_range(s, start, p);
        let ex = exponent_range(s, p + 1, n);
        proof {
            let ghost q = p as int - start as int;
            assert(body[q] == s@[p as int]);
            assert(body.take(q) =~= s@.subrange(start as int, p as int));
            assert(body.skip(q + 1) =~= s@.subrange(p as int + 1, n as int));
            if m && ex {
                assert(is_exp_char(body[q]) && mantissa_ok(body.take(q)) && exponent_ok(
                    body.skip(q + 1),
                ));
                assert(number_ok(body));
            } else {
                assert(!(is_digit_char(body[q]) || body[q] == '.'));
                assert(!mantissa_ok(body));
                assert forall|i: int|
                    0 <= i < body.len() && is_exp_char(#[trigger] body[i]) implies !(mantissa_ok(
                    body.take(i),
                ) && exponent_ok(body.skip(i + 1))) by {
                    assert(body[i] == s@[i + start]);
                    if i < q {
                        assert(!is_exp_char(s@[i + start]));
                    } else if i > q {
                        assert(body.take(i)[q] == body[q]);
                        assert(!mantissa_ok(body.take(i)));
                    }
                }
                assert(!number_ok(body));
            }
        }
        m && ex
    }
}

/// A coordinate is kept (as its text) exactly when it is present and its
/// text parses as a floating-point number; malformed text silently yields
/// absence.
pub open spec fn coordinate_of(c: Option<String>) -> Option<String> {
    match c {
        Some(s) => if float_text_ok(s@) {
            Some(s)
        } else {
            None
        },
        None => None,
    }
}

/// The normalization of an address: a pure field copy, except that the
/// coordinates are validated as float text.
pub open spec fn address_of(f: AddressFields) -> Address {
    Address {
        address1: f.address1,
        address2: f.address2,
        address3: f.address3,
        postal_code: f.postal_code,
        city: f.city,
        country: f.country,
        latitude: coordinate_of(f.latitude),
        longitude: coordinate_of(f.longitude),
    }
}

fn check_coordinate(c: Option<String>) -> (r: Option<String>)
    ensures
        r == coordinate_of(c),
{
    match c {
        Some(s) => {
            if is_float_text(s.as_str()) {
                Some(s)
            } else {
                None
            }
        },
        None => None,
    }
}

impl Address {
    /// Normalize an address block; it cannot fail.
    pub fn new(f: AddressFields) -> (r: Address)
        ensures
            r == address_of(f),
    {
        let AddressFields {
            address1,
            address2,
            address3,
            postal_code,
            city,
            country,
            latitude,
            longitude,
        } = f;
        Address {
            address1,
            address2,
            address3,
            postal_code,
            city,
            country,
            latitude: check_coordinate(latitude),
            longitude: check_coordinate(longitude),
        }
    }
}

impl Features {
    /// Normalize a features block; a pure field copy.
    pub fn new(f: FeaturesFields) -> (r: Features)
        ensures
            r.real_time_consumption_enabled == f.real_time_consumption_enabled,
    {
        Features { real_time_consumption_enabled: f.real_time_consumption_enabled }
    }
}

impl Default for Features {
    /// The features of a home whose response had no features block.
    fn default() -> (r: Features)
        ensures
            r.real_time_consumption_enabled is None,
    {
        Features { real_time_consumption_enabled: None }
    }
}

/// How an optional count narrows to `u32`: a value outside the `u32` range —
/// negative, or above `u32::MAX` — is treated as absent, never wrapped.
pub open spec fn narrowed(v: Option<i64>) -> Option<u32> {
    match v {
        Some(s) => if 0 <= s <= u32::MAX as i64 {
            Some(s as u32)
        } else {
            None
        },
        None => None,
    }
}

fn narrow_count(v: Option<i64>) -> (r: Option<u32>)
    ensures
        r == narrowed(v),
{
    match v {
        Some(s) => {
            if 0 <= s && s <= 0xFFFF_FFFFi64 {
                Some(s as u32)
            } else {
                None
            }
        },
        None => None,
    }
}

/// The normalization of a home: only the time zone is mandatory (and always
/// present in the input shape); every other attribute defaults to absence or
/// to an unknown variant.
pub open spec fn house_of(f: HouseFields) -> House {
    House {
        time_zone: f.time_zone,
        app_nickname: f.app_nickname,
        size: narrowed(f.size),
        house_type: house_type_of(f.house_type),
        number_of_residents: narrowed(f.number_of_residents),
        primary_heating_source: heating_source_of(f.primary_heating_source),
        has_ventilation_system: f.has_ventilation_system,
        main_fuse_size: narrowed(f.main_fuse_size),
        address: match f.address {
            Some(a) => Some(address_of(a)),
            None => None,
        },
        features: match f.features {
            Some(ff) => Features { real_time_consumption_enabled: ff.real_time_consumption_enabled },
            None => Features { real_time_consumption_enabled: None },
        },
    }
}

impl House {
    /// Normalize a home-metadata response; it cannot fail.
    ///
    /// Sizes and counts outside the `u32` range are treated as absent,
    /// unrecognized category and heating tags are kept verbatim in their
    /// fallback variants, and a missing features block yields the default
    /// features.
    pub fn new(f: HouseFields) -> (r: House)
        ensures
            r == house_of(f),
            f.size matches Some(s) && s < 0 ==> r.size is None,
            f.number_of_residents matches Some(n) && n < 0 ==> r.number_of_residents is None,
            f.main_fuse_size matches Some(m) && m < 0 ==> r.main_fuse_size is None,
    {
        let HouseFields {
            time_zone,
            app_nickname,
            size,
            house_type,
            number_of_residents,
            primary_heating_source,
            has_ventilation_system,
            main_fuse_size,
            address,
            features,
        } = f;
        House {
            time_zone,
            app_nickname,
            size: narrow_count(size),
            house_type: HouseType::new(house_type),
            number_of_residents: narrow_count(number_of_residents),
            primary_heating_source: HeatingSource::new(primary_heating_source),
            has_ventilation_system,
            main_fuse_size: narrow_count(main_fuse_size),
            address: match address {
                Some(a) => Some(Address::new(a)),
                None => None,
            },
            features: match features {
                Some(ff) => Features::new(ff),
                None => Features::default(),
            },
        }
    }
}

} // verus!
