//! The status normalizer: per-carrier, pure lookup tables from a carrier's
//! raw status code to the shared `ShipmentStatus` vocabulary. Unrecognized
//! codes map to `Unknown` — never an error — so new or undocumented
//! carrier codes degrade gracefully instead of breaking tracking.

use vstd::prelude::*;

use crate::models::{CarrierCode, ShipmentStatus};
use crate::strutil::str_eq;

verus! {

/// The Colissimo table.
pub open spec fn spec_normalize_colissimo(s: Seq<char>) -> ShipmentStatus {
    if s == "PRC"@ || s == "PCH"@ {
        ShipmentStatus::Pickup
    } else if s == "PDR"@ || s == "PCHTRI"@ {
        ShipmentStatus::InTransit
    } else if s == "PRES"@ || s == "AARBPR"@ || s == "PRELIV"@ {
        ShipmentStatus::OutForDelivery
    } else if s == "LIV"@ || s == "LIVRI"@ || s == "LIVCFM"@ {
        ShipmentStatus::Delivered
    } else if s == "ANOML"@ {
        ShipmentStatus::Exception
    } else if s == "RET"@ {
        ShipmentStatus::Returned
    } else if s == "PCHMQT"@ {
        ShipmentStatus::Created
    } else {
        ShipmentStatus::Unknown
    }
}

/// The Chronopost table.
pub open spec fn spec_normalize_chronopost(s: Seq<char>) -> ShipmentStatus {
    if s == "A"@ {
        ShipmentStatus::Created
    } else if s == "B"@ {
        ShipmentStatus::Pickup
    } else if s == "C"@ || s == "D"@ || s == "E"@ {
        ShipmentStatus::InTransit
    } else if s == "F"@ {
        ShipmentStatus::OutForDelivery
    } else if s == "G"@ {
        ShipmentStatus::Delivered
    } else if s == "H"@ {
        ShipmentStatus::Exception
    } else if s == "I"@ {
        ShipmentStatus::Returned
    } else {
        ShipmentStatus::Unknown
    }
}

/// The FedEx table.
pub open spec fn spec_normalize_fedex(s: Seq<char>) -> ShipmentStatus {
    if s == "AA"@ {
        ShipmentStatus::Created
    } else if s == "PU"@ {
        ShipmentStatus::Pickup
    } else if s == "IT"@ {
        ShipmentStatus::InTransit
    } else if s == "OD"@ {
        ShipmentStatus::OutForDelivery
    } else if s == "DL"@ {
        ShipmentStatus::Delivered
    } else if s == "DE"@ {
        ShipmentStatus::Exception
    } else if s == "RT"@ {
        ShipmentStatus::Returned
    } else {
        ShipmentStatus::Unknown
    }
}

/// The UPS table.
pub open spec fn spec_normalize_ups(s: Seq<char>) -> ShipmentStatus {
    if s == "M"@ {
        ShipmentStatus::Created
    } else if s == "P"@ {
        ShipmentStatus::Pickup
    } else if s == "I"@ {
        ShipmentStatus::InTransit
    } else if s == "O"@ {
        ShipmentStatus::OutForDelivery
    } else if s == "D"@ {
        ShipmentStatus::Delivered
    } else if s == "X"@ {
        ShipmentStatus::Exception
    } else if s == "R"@ {
        ShipmentStatus::Returned
    } else {
        ShipmentStatus::Unknown
    }
}

/// The DHL table.
pub open spec fn spec_normalize_dhl(s: Seq<char>) -> ShipmentStatus {
    if s == "SD"@ {
        ShipmentStatus::Created
    } else if s == "PU"@ {
        ShipmentStatus::Pickup
    } else if s == "IT"@ {
        ShipmentStatus::InTransit
    } else if s == "OD"@ {
        ShipmentStatus::OutForDelivery
    } else if s == "DL"@ {
        ShipmentStatus::Delivered
    } else if s == "EX"@ {
        ShipmentStatus::Exception
    } else if s == "RT"@ {
        ShipmentStatus::Returned
    } else {
        ShipmentStatus::Unknown
    }
}

/// The normalized status of a raw carrier code, whichever carrier issued
/// it. Total: every input string maps to some `ShipmentStatus`.
pub open spec fn spec_normalize_status(s: Seq<char>, carrier: CarrierCode) -> ShipmentStatus {
    match carrier {
        CarrierCode::Colissimo => spec_normalize_colissimo(s),
        CarrierCode::Chronopost => spec_normalize_chronopost(s),
        CarrierCode::FedEx => spec_normalize_fedex(s),
        CarrierCode::UPS => spec_normalize_ups(s),
        CarrierCode::DHL => spec_normalize_dhl(s),
    }
}

/// A raw code that appears in the given carrier's mapping table.
pub open spec fn spec_known_status(s: Seq<char>, carrier: CarrierCode) -> bool {
    spec_normalize_status(s, carrier) != ShipmentStatus::Unknown
}

/// Normalization is total and never fails: for every carrier and every
/// input string it returns a status of the shared vocabulary, and for a
/// code outside the carrier's table that status is exactly `Unknown` — the
/// only permitted fallback.
pub proof fn lemma_status_normalization_total(s: Seq<char>, carrier: CarrierCode)
    ensures
        spec_known_status(s, carrier) || spec_normalize_status(s, carrier)
            == ShipmentStatus::Unknown,
{
}

/// Maps a carrier-specific raw status code to the shared vocabulary.
pub fn normalize_status(carrier_status: &str, carrier_code: CarrierCode) -> (r: ShipmentStatus)
    ensures
        r == spec_normalize_status(carrier_status@, carrier_code),
{
    match carrier_code {
        CarrierCode::Colissimo => normalize_status_colissimo(carrier_status),
        CarrierCode::Chronopost => normalize_status_chronopost(carrier_status),
        CarrierCode::FedEx => normalize_status_fedex(carrier_status),
        CarrierCode::UPS => normalize_status_ups(carrier_status),
        CarrierCode::DHL => normalize_status_dhl(carrier_status),
    }
}

/// The Colissimo table, executed.
pub fn normalize_status_colissimo(status: &str) -> (r: ShipmentStatus)
    ensures
        r == spec_normalize_colissimo(status@),
{
    if str_eq(status, "PRC") || str_eq(status, "PCH") {
        ShipmentStatus::Pickup
    } else if str_eq(status, "PDR") || str_eq(status, "PCHTRI") {
        ShipmentStatus::InTransit
    } else if str_eq(status, "PRES") || str_eq(status, "AARBPR") || str_eq(status, "PRELIV") {
        ShipmentStatus::OutForDelivery
    } else if str_eq(status, "LIV") || str_eq(status, "LIVRI") || str_eq(status, "LIVCFM") {
        ShipmentStatus::Delivered
    } else if str_eq(status, "ANOML") {
        ShipmentStatus::Exception
    } else if str_eq(status, "RET") {
        ShipmentStatus::Returned
    } else if str_eq(status, "PCHMQT") {
        ShipmentStatus::Created
    } else {
        ShipmentStatus::Unknown
    }
}

/// The Chronopost table, executed.
pub fn normalize_status_chronopost(status: &str) -> (r: ShipmentStatus)
    ensures
        r == spec_normalize_chronopost(status@),
{
    if str_eq(status, "A") {
        ShipmentStatus::Created
    } else if str_eq(status, "B") {
        ShipmentStatus::Pickup
    } else if str_eq(status, "C") || str_eq(status, "D") || str_eq(status, "E") {
        ShipmentStatus::InTransit
    } else if str_eq(status, "F") {
        ShipmentStatus::OutForDelivery
    } else if str_eq(status, "G") {
        ShipmentStatus::Delivered
    } else if str_eq(status, "H") {
        ShipmentStatus::Exception
    } else if str_eq(status, "I") {
        ShipmentStatus::Returned
    } else {
        ShipmentStatus::Unknown
    }
}

/// The FedEx table, executed.
pub fn normalize_status_fedex(status: &str) -> (r: ShipmentStatus)
    ensures
        r == spec_normalize_fedex(status@),
{
    if str_eq(status, "AA") {
        ShipmentStatus::Created
    } else if str_eq(status, "PU") {
        ShipmentStatus::Pickup
    } else if str_eq(status, "IT") {
        ShipmentStatus::InTransit
    } else if str_eq(status, "OD") {
        ShipmentStatus::OutForDelivery
    } else if str_eq(status, "DL") {
        ShipmentStatus::Delivered
    } else if str_eq(status, "DE") {
        ShipmentStatus::Exception
    } else if str_eq(status, "RT") {
        ShipmentStatus::Returned
    } else {
        ShipmentStatus::Unknown
    }
}

/// The UPS table, executed.
pub fn normalize_status_ups(status: &str) -> (r: ShipmentStatus)
    ensures
        r == spec_normalize_ups(status@),
{
    if str_eq(status, "M") {
        ShipmentStatus::Created
    } else if str_eq(status, "P") {
        ShipmentStatus::Pickup
    } else if str_eq(status, "I") {
        ShipmentStatus::InTransit
    } else if str_eq(status, "O") {
        ShipmentStatus::OutForDelivery
    } else if str_eq(status, "D") {
        ShipmentStatus::Delivered
    } else if str_eq(status, "X") {
        ShipmentStatus::Exception
    } else if str_eq(status, "R") {
        ShipmentStatus::Returned
    } else {
        ShipmentStatus::Unknown
    }
}

/// The DHL table, executed.
pub fn normalize_status_dhl(status: &str) -> (r: ShipmentStatus)
    ensures
        r == spec_normalize_dhl(status@),
{
    if str_eq(status, "SD") {
        ShipmentStatus::Created
    } else if str_eq(status, "PU") {
        ShipmentStatus::Pickup
    } else if str_eq(status, "IT") {
        ShipmentStatus::InTransit
    } else if str_eq(status, "OD") {
        ShipmentStatus::OutForDelivery
    } else if str_eq(status, "DL") {
        ShipmentStatus::Delivered
    } else if str_eq(status, "EX") {
        ShipmentStatus::Exception
    } else if str_eq(status, "RT") {
        ShipmentStatus::Returned
    } else {
        ShipmentStatus::Unknown
    }
}

} // verus!
