//! The tracking-format detector: a pure heuristic that guesses the owning
//! carrier from the shape of a tracking number alone. It is independent of
//! any registry; the manager's auto-detection asks the registered carriers
//! themselves instead.

use vstd::prelude::*;

use crate::models::CarrierCode;
use crate::strutil::{
    spec_all_digits, spec_ends_with, spec_starts_with, str_all_digits, str_ends_with,
    str_starts_with,
};

verus! {

/// The carrier the detector guesses for a tracking number: the patterns
/// are tried in a fixed order and the first that fits wins; no fit means
/// no guess.
pub open spec fn spec_detect_carrier(t: Seq<char>) -> Option<CarrierCode> {
    if t.len() == 13 && spec_starts_with(t, "1Z"@) {
        Some(CarrierCode::UPS)
    } else if t.len() == 12 && spec_all_digits(t) {
        Some(CarrierCode::FedEx)
    } else if t.len() == 13 && spec_ends_with(t, "FR"@) {
        Some(CarrierCode::Colissimo)
    } else if t.len() == 10 && spec_starts_with(t, "CH"@) {
        Some(CarrierCode::Chronopost)
    } else {
        None
    }
}

/// Guesses the probable carrier from the shape of a tracking number,
/// based on length and simple prefix/suffix patterns.
pub fn detect_carrier_from_tracking(tracking: &str) -> (r: Option<CarrierCode>)
    ensures
        r == spec_detect_carrier(tracking@),
{
    let len = tracking.unicode_len();
    if len == 13 && str_starts_with(tracking, "1Z") {
        return Some(CarrierCode::UPS);
    }
    if len == 12 && str_all_digits(tracking) {
        return Some(CarrierCode::FedEx);
    }
    if len == 13 && str_ends_with(tracking, "FR") {
        return Some(CarrierCode::Colissimo);
    }
    if len == 10 && str_starts_with(tracking, "CH") {
        return Some(CarrierCode::Chronopost);
    }
    None
}

} // verus!
