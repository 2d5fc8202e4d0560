//! The rule engine that checks addresses and parcels before any carrier is
//! contacted: generic checks first, then country-specific refinements.
//! Failures carry the field and rule at fault, so they can be surfaced to
//! an end user.

use vstd::prelude::*;

use crate::errors::DeliveryError;
use crate::models::{Address, CarrierCode, Parcel};
use crate::strutil::{
    is_digit_char, spec_all_digits, spec_ends_with, spec_is_blank, spec_starts_with, str_all_digits,
    str_ends_with, str_eq, str_is_blank, str_starts_with,
};

verus! {

/// The refusal, if any, the France-specific rules raise: a five-digit
/// postal code, and a phone number starting with `+33` or `0` when one is
/// given.
pub open spec fn spec_france_error(a: Address) -> Option<Seq<char>> {
    if !(spec_all_digits(a.postal_code@) && a.postal_code@.len() == 5) {
        Some("Le code postal fran\u{e7}ais doit contenir 5 chiffres"@)
    } else if a.phone is Some && !(spec_starts_with(a.phone->Some_0@, "+33"@) || spec_starts_with(
        a.phone->Some_0@,
        "0"@,
    )) {
        Some("Le num\u{e9}ro de t\u{e9}l\u{e9}phone fran\u{e7}ais doit commencer par +33 ou 0"@)
    } else {
        None
    }
}

/// A United States postal code: five digits, or five digits, a dash and
/// four digits.
pub open spec fn spec_us_postal_code(s: Seq<char>) -> bool {
    ||| (s.len() == 5 && spec_all_digits(s))
    ||| (s.len() == 10 && s[5] == '-' && (forall|i: int|
        0 <= i < 10 && i != 5 ==> is_digit_char(#[trigger] s[i])))
}

/// The refusal, if any, the United States-specific rules raise: a state is
/// mandatory, and the postal code must read 12345 or 12345-6789.
pub open spec fn spec_usa_error(a: Address) -> Option<Seq<char>> {
    if !(a.state is Some && !spec_is_blank(a.state->Some_0@)) {
        Some("L'\u{e9}tat est obligatoire pour les adresses aux \u{c9}tats-Unis"@)
    } else if !spec_us_postal_code(a.postal_code@) {
        Some("Le code postal am\u{e9}ricain doit \u{ea}tre au format 12345 ou 12345-6789"@)
    } else {
        None
    }
}

/// The refusal, if any, the country-specific rules raise. Countries
/// without a specific rule set pass with only the generic checks.
pub open spec fn spec_country_error(a: Address) -> Option<Seq<char>> {
    if a.country@ == "FR"@ {
        spec_france_error(a)
    } else if a.country@ == "US"@ {
        spec_usa_error(a)
    } else {
        None
    }
}

/// The refusal, if any, address validation raises: the generic checks
/// (name, street, city, postal code and country must not be blank) first,
/// the country-specific rules after them.
pub open spec fn spec_address_error(a: Address) -> Option<Seq<char>> {
    if spec_is_blank(a.name@) {
        Some("Le nom est obligatoire"@)
    } else if spec_is_blank(a.street1@) {
        Some("L'adresse est obligatoire"@)
    } else if spec_is_blank(a.city@) {
        Some("La ville est obligatoire"@)
    } else if spec_is_blank(a.postal_code@) {
        Some("Le code postal est obligatoire"@)
    } else if spec_is_blank(a.country@) {
        Some("Le pays est obligatoire"@)
    } else {
        spec_country_error(a)
    }
}

/// An address the validator accepts.
pub open spec fn spec_address_valid(a: Address) -> bool {
    spec_address_error(a) is None
}

/// Exactly what `validate_address` may return for an address: `Ok` when
/// the address is valid, otherwise `InvalidAddress` carrying the refusal
/// `spec_address_error` names.
pub open spec fn spec_validate_address_post(a: Address, r: Result<(), DeliveryError>) -> bool {
    &&& r is Ok <==> spec_address_valid(a)
    &&& r matches Err(e) ==> e matches DeliveryError::InvalidAddress(m) && spec_address_error(a)
        == Some(m@)
}

/// Address validation is idempotent: verdict and refusal are functions of
/// the address alone, so two validations of identical input agree — in
/// particular, an address that passed the generic and country-specific
/// checks once is never rejected when re-validated unchanged.
pub proof fn lemma_address_validation_idempotent(
    a: Address,
    r1: Result<(), DeliveryError>,
    r2: Result<(), DeliveryError>,
)
    requires
        spec_validate_address_post(a, r1),
        spec_validate_address_post(a, r2),
    ensures
        r1 is Ok <==> r2 is Ok,
        r1 is Err ==> (r1->Err_0 matches DeliveryError::InvalidAddress(m1) && r2->Err_0 matches
            DeliveryError::InvalidAddress(m2) && m1@ == m2@),
{
}

/// Checks an address against the generic rules, then against the rules of
/// its country. Returns exactly the refusal `spec_address_error` names, or
/// `Ok` when there is none.
pub fn validate_address(address: &Address) -> (r: Result<(), DeliveryError>)
    ensures
        spec_validate_address_post(*address, r),
        r is Ok <==> spec_address_valid(*address),
{
    if str_is_blank(address.name.as_str()) {
        return Err(
            DeliveryError::InvalidAddress(String::from_str("Le nom est obligatoire")),
        );
    }
    if str_is_blank(address.street1.as_str()) {
        return Err(
            DeliveryError::InvalidAddress(String::from_str("L'adresse est obligatoire")),
        );
    }
    if str_is_blank(address.city.as_str()) {
        return Err(
            DeliveryError::InvalidAddress(String::from_str("La ville est obligatoire")),
        );
    }
    if str_is_blank(address.postal_code.as_str()) {
        return Err(
            DeliveryError::InvalidAddress(String::from_str("Le code postal est obligatoire")),
        );
    }
    if str_is_blank(address.country.as_str()) {
        return Err(
            DeliveryError::InvalidAddress(String::from_str("Le pays est obligatoire")),
        );
    }
    validate_country_specific(address)
}

/// Dispatches to the validation rules of the address's country.
pub fn validate_country_specific(address: &Address) -> (r: Result<(), DeliveryError>)
    ensures
        r is Ok <==> spec_country_error(*address) is None,
        r matches Err(e) ==> e matches DeliveryError::InvalidAddress(m) && spec_country_error(
            *address,
        ) == Some(m@),
{
    if str_eq(address.country.as_str(), "FR") {
        validate_address_france(address)
    } else if str_eq(address.country.as_str(), "US") {
        validate_address_usa(address)
    } else {
        Ok(())
    }
}

/// The validation rules specific to France.
pub fn validate_address_france(address: &Address) -> (r: Result<(), DeliveryError>)
    ensures
        r is Ok <==> spec_france_error(*address) is None,
        r matches Err(e) ==> e matches DeliveryError::InvalidAddress(m) && spec_france_error(
            *address,
        ) == Some(m@),
{
    if !str_all_digits(address.postal_code.as_str()) || address.postal_code.as_str().unicode_len()
        != 5 {
        return Err(
            DeliveryError::InvalidAddress(
                String::from_str("Le code postal fran\u{e7}ais doit contenir 5 chiffres"),
            ),
        );
    }
    if let Some(phone) = &address.phone {
        if !str_starts_with(phone.as_str(), "+33") && !str_starts_with(phone.as_str(), "0") {
            return Err(
                DeliveryError::InvalidAddress(
                    String::from_str(
                        "Le num\u{e9}ro de t\u{e9}l\u{e9}phone fran\u{e7}ais doit commencer par +33 ou 0",
                    ),
                ),
            );
        }
    }
    Ok(())
}

/// The validation rules specific to the United States.
pub fn validate_address_usa(address: &Address) -> (r: Result<(), DeliveryError>)
    ensures
        r is Ok <==> spec_usa_error(*address) is None,
        r matches Err(e) ==> e matches DeliveryError::InvalidAddress(m) && spec_usa_error(*address)
            == Some(m@),
{
    let state_ok = match &address.state {
        Some(s) => !str_is_blank(s.as_str()),
        None => false,
    };
    if !state_ok {
        return Err(
            DeliveryError::InvalidAddress(
                String::from_str("L'\u{e9}tat est obligatoire pour les adresses aux \u{c9}tats-Unis"),
            ),
        );
    }
    if !us_postal_code_ok(address.postal_code.as_str()) {
        return Err(
            DeliveryError::InvalidAddress(
                String::from_str(
                    "Le code postal am\u{e9}ricain doit \u{ea}tre au format 12345 ou 12345-6789",
                ),
            ),
        );
    }
    Ok(())
}

/// Whether a postal code reads 12345 or 12345-6789.
fn us_postal_code_ok(postal: &str) -> (r: bool)
    ensures
        r == spec_us_postal_code(postal@),
{
    let len = postal.unicode_len();
    if len == 5 {
        str_all_digits(postal)
    } else if len == 10 {
        // Walk the ten characters: a dash in the middle, digits elsewhere.
        let mut j: usize = 0;
        while j < 10
            invariant
                postal@.len() == 10,
                j <= 10,
                forall|k: int|
                    0 <= k < j ==> (if k == 5 {
                        postal@[k] == '-'
                    } else {
                        is_digit_char(#[trigger] postal@[k])
                    }),
            decreases 10 - j,
        {
            let c = postal.get_char(j);
            if j == 5 {
                if c != '-' {
                    return false;
                }
            } else {
                if !(c >= '0' && c <= '9') {
                    return false;
                }
            }
            j += 1;
        }
        true
    } else {
        false
    }
}

/// A parcel whose sender and recipient coincide in name, first street line
/// and postal code: a degenerate shipment the validator rejects.
pub open spec fn spec_parcel_degenerate(p: Parcel) -> bool {
    &&& p.sender.postal_code@ == p.recipient.postal_code@
    &&& p.sender.street1@ == p.recipient.street1@
    &&& p.sender.name@ == p.recipient.name@
}

/// A parcel the validator accepts: positive weight and dimensions, two
/// valid addresses, and sender and recipient not identical.
pub open spec fn spec_parcel_valid(p: Parcel) -> bool {
    &&& p.weight > 0
    &&& p.length > 0
    &&& p.width > 0
    &&& p.height > 0
    &&& spec_address_valid(p.sender)
    &&& spec_address_valid(p.recipient)
    &&& !spec_parcel_degenerate(p)
}

/// Exactly what `validate_parcel` returns for a parcel: the checks run in
/// a fixed order and the first refusal wins.
pub open spec fn spec_validate_parcel_post(p: Parcel, r: Result<(), DeliveryError>) -> bool {
    if p.weight == 0 {
        r matches Err(e) && e matches DeliveryError::InvalidParcel(m) && m@
            == "Le poids du colis doit \u{ea}tre sup\u{e9}rieur \u{e0} 0"@
    } else if p.length == 0 || p.width == 0 || p.height == 0 {
        r matches Err(e) && e matches DeliveryError::InvalidParcel(m) && m@
            == "Les dimensions du colis doivent \u{ea}tre sup\u{e9}rieures \u{e0} 0"@
    } else if spec_address_error(p.sender) is Some {
        r matches Err(e) && e matches DeliveryError::InvalidAddress(m) && spec_address_error(
            p.sender,
        ) == Some(m@)
    } else if spec_address_error(p.recipient) is Some {
        r matches Err(e) && e matches DeliveryError::InvalidAddress(m) && spec_address_error(
            p.recipient,
        ) == Some(m@)
    } else if spec_parcel_degenerate(p) {
        r matches Err(e) && e matches DeliveryError::InvalidParcel(m) && m@
            == "L'exp\u{e9}diteur et le destinataire ne peuvent pas \u{ea}tre identiques"@
    } else {
        r is Ok
    }
}

/// Checks a parcel for shipment: weight, dimensions, both addresses, and
/// the sender/recipient distinction. Runs before any carrier is contacted.
pub fn validate_parcel(parcel: &Parcel) -> (r: Result<(), DeliveryError>)
    ensures
        r is Ok <==> spec_parcel_valid(*parcel),
        spec_validate_parcel_post(*parcel, r),
{
    if parcel.weight == 0 {
        return Err(
            DeliveryError::InvalidParcel(
                String::from_str("Le poids du colis doit \u{ea}tre sup\u{e9}rieur \u{e0} 0"),
            ),
        );
    }
    if parcel.length == 0 || parcel.width == 0 || parcel.height == 0 {
        return Err(
            DeliveryError::InvalidParcel(
                String::from_str("Les dimensions du colis doivent \u{ea}tre sup\u{e9}rieures \u{e0} 0"),
            ),
        );
    }
    match validate_address(&parcel.sender) {
        Ok(()) => (),
        Err(e) => {
            return Err(e);
        },
    }
    match validate_address(&parcel.recipient) {
        Ok(()) => (),
        Err(e) => {
            return Err(e);
        },
    }
    if str_eq(parcel.sender.postal_code.as_str(), parcel.recipient.postal_code.as_str()) && str_eq(
        parcel.sender.street1.as_str(),
        parcel.recipient.street1.as_str(),
    ) && str_eq(parcel.sender.name.as_str(), parcel.recipient.name.as_str()) {
        return Err(
            DeliveryError::InvalidParcel(
                String::from_str(
                    "L'exp\u{e9}diteur et le destinataire ne peuvent pas \u{ea}tre identiques",
                ),
            ),
        );
    }
    Ok(())
}

/// Exactly when `validate_tracking_number` accepts a tracking number: each
/// carrier has its own shape; with no carrier given, any token of 8 to 30
/// characters passes.
pub open spec fn spec_tracking_number_valid(t: Seq<char>, carrier: Option<CarrierCode>) -> bool {
    &&& !spec_is_blank(t)
    &&& match carrier {
        Some(CarrierCode::Colissimo) => t.len() == 13 && spec_ends_with(t, "FR"@),
        Some(CarrierCode::Chronopost) => t.len() == 10 && spec_starts_with(t, "CH"@),
        Some(CarrierCode::FedEx) => t.len() == 12 && spec_all_digits(t),
        Some(CarrierCode::UPS) => t.len() == 18 && spec_starts_with(t, "1Z"@),
        Some(CarrierCode::DHL) => t.len() == 10 && spec_all_digits(t),
        None => 8 <= t.len() <= 30,
    }
}

/// Checks the shape of a tracking number, against one carrier's format
/// when a carrier is given, against loose generic bounds otherwise.
pub fn validate_tracking_number(tracking: &str, carrier_code: Option<CarrierCode>) -> (r: bool)
    ensures
        r == spec_tracking_number_valid(tracking@, carrier_code),
{
    if str_is_blank(tracking) {
        return false;
    }
    let len = tracking.unicode_len();
    match carrier_code {
        Some(CarrierCode::Colissimo) => len == 13 && str_ends_with(tracking, "FR"),
        Some(CarrierCode::Chronopost) => len == 10 && str_starts_with(tracking, "CH"),
        Some(CarrierCode::FedEx) => len == 12 && str_all_digits(tracking),
        Some(CarrierCode::UPS) => len == 18 && str_starts_with(tracking, "1Z"),
        Some(CarrierCode::DHL) => len == 10 && str_all_digits(tracking),
        None => 8 <= len && len <= 30,
    }
}

} // verus!
