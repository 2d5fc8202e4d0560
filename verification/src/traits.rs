//! The carrier capability contract: the polymorphic interface every
//! carrier collaborator implements. The manager is generic over this
//! contract and never branches on carrier identity; carrier-specific
//! behaviour lives entirely inside each implementation.
//!
//! Each remote operation comes with an implementation-chosen postcondition
//! predicate (`rates_post`, `label_post`, ...): the carrier states what it
//! promises of an answer, and the manager's own contracts propagate that
//! promise to the caller. A carrier's answer also depends on the network,
//! so the predicates describe every outcome, not one fixed result.
//! Implementations outside this crate are not verified against their
//! predicates; what is proved through them holds of implementations that
//! honour them.

use vstd::pervasive::arbitrary;
use vstd::prelude::*;

use crate::errors::DeliveryError;
use crate::models::{Address, CarrierCode, Parcel, Rate, ShippingLabel, TrackingInfo};

verus! {

/// Rate lookup: quoting shipping rates for a parcel.
pub trait RateProvider: Send + Sync {
    /// What this carrier promises of a rate answer. Promises nothing
    /// unless the implementation overrides it.
    open spec fn rates_post(&self, parcel: Parcel, r: Result<Vec<Rate>, DeliveryError>) -> bool {
        true
    }

    /// Returns the rates available for a parcel, or a carrier- or
    /// network-appropriate error. Takes the parcel by shared reference:
    /// it cannot be mutated.
    fn get_rates_blocking(&self, parcel: &Parcel) -> (r: Result<Vec<Rate>, DeliveryError>)
        ensures
            self.rates_post(*parcel, r),
    ;
}

/// Label generation: turning a parcel and a previously obtained rate into
/// a shipping label.
pub trait LabelGenerator: Send + Sync {
    /// What this carrier promises of a label answer. Promises nothing
    /// unless the implementation overrides it.
    open spec fn label_post(&self, parcel: Parcel, rate: Rate, r: Result<
        ShippingLabel,
        DeliveryError,
    >) -> bool {
        true
    }

    /// Returns a shipping label for the parcel under the given rate, or
    /// an error such as a rejected combination or an expired rate.
    fn generate_label_blocking(&self, parcel: &Parcel, rate: &Rate) -> (r: Result<
        ShippingLabel,
        DeliveryError,
    >)
        ensures
            self.label_post(*parcel, *rate, r),
    ;
}

/// Shipment tracking, and the format predicate the manager's carrier
/// auto-detection relies on.
pub trait ShipmentTracker: Send + Sync {
    /// The set of tracking-number shapes this carrier recognizes. A pure
    /// function of the string: `can_track` must answer from the format
    /// alone, with no network call. Unspecified unless the
    /// implementation overrides it.
    open spec fn spec_can_track(&self, tracking: Seq<char>) -> bool {
        arbitrary()
    }

    /// What this carrier promises of a tracking answer. Promises nothing
    /// unless the implementation overrides it.
    open spec fn track_post(&self, tracking: Seq<char>, r: Result<TrackingInfo, DeliveryError>) -> bool {
        true
    }

    /// Returns the tracking information for a tracking number, or a
    /// carrier- or network-appropriate error.
    fn track_parcel_blocking(&self, tracking_number: &str) -> (r: Result<
        TrackingInfo,
        DeliveryError,
    >)
        ensures
            self.track_post(tracking_number@, r),
    ;

    /// Whether this carrier recognizes the tracking number's format. Fast
    /// and side-effect-free: the manager may call it once per registered
    /// carrier per lookup.
    fn can_track(&self, tracking_number: &str) -> (r: bool)
        ensures
            r == self.spec_can_track(tracking_number@),
    ;
}

/// Cross-carrier data normalization: this carrier's status vocabulary and
/// address rules, which may be stricter than the generic validator's.
pub trait DataNormalizer: Send + Sync {
    /// This carrier's status mapping, as a pure function of the raw
    /// code. Unspecified unless the implementation overrides it.
    open spec fn spec_normalize_code(&self, raw: Seq<char>) -> Seq<char> {
        arbitrary()
    }

    /// The addresses this carrier accepts. Unspecified unless the
    /// implementation overrides it.
    open spec fn spec_address_ok(&self, address: Address) -> bool {
        arbitrary()
    }

    /// What this carrier promises of an address normalization: how the
    /// address after the call relates to the one before it.
    /// Promises nothing unless the implementation overrides it.
    open spec fn normalize_address_post(&self, before: Address, after: Address, r: Result<
        (),
        DeliveryError,
    >) -> bool {
        true
    }

    /// Maps this carrier's raw status code to its standardized form.
    fn normalize_status_code(&self, carrier_status: &str) -> (r: String)
        ensures
            r@ == self.spec_normalize_code(carrier_status@),
    ;

    /// Rewrites an address to this carrier's conventions.
    fn normalize_address(&self, address: &mut Address) -> (r: Result<(), DeliveryError>)
        ensures
            self.normalize_address_post(*old(address), *final(address), r),
    ;

    /// Checks an address against this carrier's own rules.
    fn validate_address(&self, address: &Address) -> (r: Result<(), DeliveryError>)
        ensures
            r is Ok <==> self.spec_address_ok(*address),
    ;
}

/// The complete carrier contract: every capability, plus a stable
/// identity and an availability probe.
pub trait ShippingCarrier: RateProvider + LabelGenerator + ShipmentTracker + DataNormalizer {
    /// The carrier's stable identity. Unspecified unless the
    /// implementation overrides it.
    open spec fn spec_code(&self) -> CarrierCode {
        arbitrary()
    }

    /// The carrier's stable display name. Unspecified unless the
    /// implementation overrides it.
    open spec fn spec_name(&self) -> Seq<char> {
        arbitrary()
    }

    /// What this carrier promises of an availability probe. The probe may
    /// reach the network, so the predicate describes every outcome.
    /// Promises nothing unless the implementation overrides it.
    open spec fn avail_post(&self, r: bool) -> bool {
        true
    }

    /// Returns the carrier's identity code.
    fn carrier_code(&self) -> (c: CarrierCode)
        ensures
            c == self.spec_code(),
    ;

    /// Returns the carrier's display name.
    fn carrier_name(&self) -> (n: String)
        ensures
            n@ == self.spec_name(),
    ;

    /// Probes whether the carrier can be reached at all (a lightweight
    /// reachability or authentication check).
    fn is_available_blocking(&self) -> (r: bool)
        ensures
            self.avail_post(r),
    ;
}

} // verus!
