//! Country reference data and simple geographic predicates: country
//! lookup, domestic-shipment and EU-shipment tests.

use vstd::prelude::*;

use crate::strutil::{spec_upper, str_eq, str_eq_upper};

verus! {

/// Reference information about one country.
#[derive(Debug, Clone)]
pub struct CountryInfo {
    /// The ISO-style two-letter code.
    pub code: String,
    /// The English name.
    pub name: String,
    /// A pattern describing the country's postal codes, where one is
    /// known.
    pub postal_code_format: Option<String>,
    /// The international dialling code.
    pub phone_code: String,
}

/// The country codes the reference table knows, in table order.
pub open spec fn spec_country_codes() -> Seq<Seq<char>> {
    seq!["FR"@, "US"@, "GB"@, "DE"@, "IT"@, "ES"@, "BE"@, "CA"@]
}

/// The English name the table gives a country code.
pub open spec fn spec_country_name_of(code: Seq<char>) -> Option<Seq<char>> {
    if code == "FR"@ {
        Some("France"@)
    } else if code == "US"@ {
        Some("United States"@)
    } else if code == "GB"@ {
        Some("United Kingdom"@)
    } else if code == "DE"@ {
        Some("Germany"@)
    } else if code == "IT"@ {
        Some("Italy"@)
    } else if code == "ES"@ {
        Some("Spain"@)
    } else if code == "BE"@ {
        Some("Belgium"@)
    } else if code == "CA"@ {
        Some("Canada"@)
    } else {
        None
    }
}

/// The dialling code the table gives a country code.
pub open spec fn spec_phone_code_of(code: Seq<char>) -> Option<Seq<char>> {
    if code == "FR"@ {
        Some("33"@)
    } else if code == "US"@ {
        Some("1"@)
    } else if code == "GB"@ {
        Some("44"@)
    } else if code == "DE"@ {
        Some("49"@)
    } else if code == "IT"@ {
        Some("39"@)
    } else if code == "ES"@ {
        Some("34"@)
    } else if code == "BE"@ {
        Some("32"@)
    } else if code == "CA"@ {
        Some("1"@)
    } else {
        None
    }
}

/// Builds the country reference table.
pub fn get_countries() -> (r: Vec<CountryInfo>)
    ensures
        r@.len() == spec_country_codes().len(),
        forall|i: int|
            0 <= i < r@.len() ==> (#[trigger] r@[i]).code@ == spec_country_codes()[i],
        r@[0].name@ == "France"@ && r@[0].phone_code@ == "33"@,
        r@[1].name@ == "United States"@ && r@[1].phone_code@ == "1"@,
        r@[2].name@ == "United Kingdom"@ && r@[2].phone_code@ == "44"@,
        r@[3].name@ == "Germany"@ && r@[3].phone_code@ == "49"@,
        r@[4].name@ == "Italy"@ && r@[4].phone_code@ == "39"@,
        r@[5].name@ == "Spain"@ && r@[5].phone_code@ == "34"@,
        r@[6].name@ == "Belgium"@ && r@[6].phone_code@ == "32"@,
        r@[7].name@ == "Canada"@ && r@[7].phone_code@ == "1"@,
        (r@[0].postal_code_format matches Some(f) && f@ == "^\\d{5}$"@),
        (r@[1].postal_code_format matches Some(f) && f@ == "^\\d{5}(-\\d{4})?$"@),
        (r@[2].postal_code_format matches Some(f) && f@ == "^[A-Z]{1,2}\\d[A-Z\\d]? \\d[A-Z]{2}$"@),
        (r@[3].postal_code_format matches Some(f) && f@ == "^\\d{5}$"@),
        (r@[4].postal_code_format matches Some(f) && f@ == "^\\d{5}$"@),
        (r@[5].postal_code_format matches Some(f) && f@ == "^\\d{5}$"@),
        (r@[6].postal_code_format matches Some(f) && f@ == "^\\d{4}$"@),
        (r@[7].postal_code_format matches Some(f) && f@ == "^[A-Z]\\d[A-Z] \\d[A-Z]\\d$"@),
{
    let mut countries: Vec<CountryInfo> = Vec::new();
    countries.push(
        CountryInfo {
            code: String::from_str("FR"),
            name: String::from_str("France"),
            postal_code_format: Some(String::from_str("^\\d{5}$")),
            phone_code: String::from_str("33"),
        },
    );
    countries.push(
        CountryInfo {
            code: String::from_str("US"),
            name: String::from_str("United States"),
            postal_code_format: Some(String::from_str("^\\d{5}(-\\d{4})?$")),
            phone_code: String::from_str("1"),
        },
    );
    countries.push(
        CountryInfo {
            code: String::from_str("GB"),
            name: String::from_str("United Kingdom"),
            postal_code_format: Some(String::from_str("^[A-Z]{1,2}\\d[A-Z\\d]? \\d[A-Z]{2}$")),
            phone_code: String::from_str("44"),
        },
    );
    countries.push(
        CountryInfo {
            code: String::from_str("DE"),
            name: String::from_str("Germany"),
            postal_code_format: Some(String::from_str("^\\d{5}$")),
            phone_code: String::from_str("49"),
        },
    );
    countries.push(
        CountryInfo {
            code: String::from_str("IT"),
            name: String::from_str("Italy"),
            postal_code_format: Some(String::from_str("^\\d{5}$")),
            phone_code: String::from_str("39"),
        },
    );
    countries.push(
        CountryInfo {
            code: String::from_str("ES"),
            name: String::from_str("Spain"),
            postal_code_format: Some(String::from_str("^\\d{5}$")),
            phone_code: String::from_str("34"),
        },
    );
    countries.push(
        CountryInfo {
            code: String::from_str("BE"),
            name: String::from_str("Belgium"),
            postal_code_format: Some(String::from_str("^\\d{4}$")),
            phone_code: String::from_str("32"),
        },
    );
    countries.push(
        CountryInfo {
            code: String::from_str("CA"),
            name: String::from_str("Canada"),
            postal_code_format: Some(String::from_str("^[A-Z]\\d[A-Z] \\d[A-Z]\\d$")),
            phone_code: String::from_str("1"),
        },
    );
    countries
}

/// Looks up the English name of a country from its two-letter code.
pub fn country_name_from_code(code: &str) -> (r: Option<String>)
    ensures
        match r {
            Some(n) => spec_country_name_of(code@) == Some(n@),
            None => spec_country_name_of(code@) is None,
        },
{
    if str_eq(code, "FR") {
        Some(String::from_str("France"))
    } else if str_eq(code, "US") {
        Some(String::from_str("United States"))
    } else if str_eq(code, "GB") {
        Some(String::from_str("United Kingdom"))
    } else if str_eq(code, "DE") {
        Some(String::from_str("Germany"))
    } else if str_eq(code, "IT") {
        Some(String::from_str("Italy"))
    } else if str_eq(code, "ES") {
        Some(String::from_str("Spain"))
    } else if str_eq(code, "BE") {
        Some(String::from_str("Belgium"))
    } else if str_eq(code, "CA") {
        Some(String::from_str("Canada"))
    } else {
        None
    }
}

/// Whether a two-letter country code appears in the reference table.
pub fn is_valid_country_code(code: &str) -> (r: bool)
    ensures
        r == (spec_country_name_of(code@) is Some),
{
    if str_eq(code, "FR") || str_eq(code, "US") || str_eq(code, "GB") || str_eq(code, "DE")
        || str_eq(code, "IT") || str_eq(code, "ES") || str_eq(code, "BE") || str_eq(code, "CA") {
        true
    } else {
        false
    }
}

/// Whether a shipment stays within one country: sender and recipient
/// country codes coincide.
pub fn is_domestic_shipping(sender_country: &str, recipient_country: &str) -> (r: bool)
    ensures
        r == (sender_country@ == recipient_country@),
{
    str_eq(sender_country, recipient_country)
}

/// The two-letter codes of the European Union's member states.
pub open spec fn spec_eu_codes() -> Seq<Seq<char>> {
    seq![
        "AT"@, "BE"@, "BG"@, "HR"@, "CY"@, "CZ"@, "DK"@, "EE"@, "FI"@, "FR"@,
        "DE"@, "GR"@, "HU"@, "IE"@, "IT"@, "LV"@, "LT"@, "LU"@, "MT"@, "NL"@,
        "PL"@, "PT"@, "RO"@, "SK"@, "SI"@, "ES"@, "SE"@,
    ]
}

/// Builds the list of EU member-state codes.
pub fn get_eu_countries() -> (r: Vec<&'static str>)
    ensures
        r@.len() == spec_eu_codes().len(),
        forall|i: int| 0 <= i < r@.len() ==> (#[trigger] r@[i])@ == spec_eu_codes()[i],
{
    let eu: Vec<&'static str> = vec![
        "AT", "BE", "BG", "HR", "CY", "CZ", "DK", "EE", "FI", "FR",
        "DE", "GR", "HU", "IE", "IT", "LV", "LT", "LU", "MT", "NL",
        "PL", "PT", "RO", "SK", "SI", "ES", "SE",
    ];
    eu
}

/// Whether a country code, upper-cased, names an EU member state.
pub fn is_eu_country(code: &str) -> (r: bool)
    ensures
        r == spec_eu_codes().contains(spec_upper(code@)),
{
    let eu = get_eu_countries();
    let n = eu.len();
    let mut i: usize = 0;
    while i < n
        invariant
            n == eu@.len(),
            n == spec_eu_codes().len(),
            forall|k: int| 0 <= k < n ==> (#[trigger] eu@[k])@ == spec_eu_codes()[k],
            i <= n,
            forall|k: int| 0 <= k < i ==> spec_upper(code@) != (#[trigger] eu@[k])@,
        decreases n - i,
    {
        if str_eq_upper(code, eu[i]) {
            proof {
                assert(spec_eu_codes()[i as int] == spec_upper(code@));
            }
            return true;
        }
        i += 1;
    }
    proof {
        assert forall|k: int|
            0 <= k < spec_eu_codes().len() implies spec_upper(code@) != spec_eu_codes()[k] by {
            assert(spec_eu_codes()[k] == (eu@[k])@);
            assert(spec_upper(code@) != (eu@[k])@);
        }
    }
    false
}

/// Whether a shipment moves between two EU member states (country codes
/// compared case-insensitively).
pub fn is_eu_shipping(sender_country: &str, recipient_country: &str) -> (r: bool)
    ensures
        r == (spec_eu_codes().contains(spec_upper(sender_country@)) && spec_eu_codes().contains(
            spec_upper(recipient_country@),
        )),
{
    is_eu_country(sender_country) && is_eu_country(recipient_country)
}

} // verus!
