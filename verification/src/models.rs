//! The shared data model: carrier identities, addresses, parcels, rates,
//! shipment statuses, tracking data and shipping labels.

use vstd::prelude::*;

verus! {

/// Identifies one of the supported carriers. A closed set: adding a carrier
/// is a compile-time-checked, exhaustive change.
#[derive(Debug, Clone, Copy, PartialEq, Eq, Hash, PartialOrd, Ord, Structural)]
pub enum CarrierCode {
    Colissimo,
    Chronopost,
    FedEx,
    UPS,
    DHL,
}

impl CarrierCode {
    /// The display name of the carrier.
    pub open spec fn spec_label(self) -> Seq<char> {
        match self {
            CarrierCode::Colissimo => "Colissimo"@,
            CarrierCode::Chronopost => "Chronopost"@,
            CarrierCode::FedEx => "FedEx"@,
            CarrierCode::UPS => "UPS"@,
            CarrierCode::DHL => "DHL"@,
        }
    }

    /// Returns the display name of the carrier.
    pub fn label(&self) -> (r: String)
        ensures
            r@ == self.spec_label(),
    {
        match self {
            CarrierCode::Colissimo => String::from_str("Colissimo"),
            CarrierCode::Chronopost => String::from_str("Chronopost"),
            CarrierCode::FedEx => String::from_str("FedEx"),
            CarrierCode::UPS => String::from_str("UPS"),
            CarrierCode::DHL => String::from_str("DHL"),
        }
    }
}

/// The carrier-agnostic vocabulary for the state of a shipment. `Unknown` is
/// the mandatory fallback for any carrier status code outside that carrier's
/// mapping table: normalization never fails, it only degrades to `Unknown`.
#[derive(Debug, Clone, Copy, PartialEq, Eq, Hash, Structural)]
pub enum ShipmentStatus {
    Created,
    Pickup,
    InTransit,
    OutForDelivery,
    Delivered,
    Exception,
    Returned,
    Unknown,
}

impl ShipmentStatus {
    /// The human-readable description of the status.
    pub open spec fn spec_label(self) -> Seq<char> {
        match self {
            ShipmentStatus::Created => "Cr\u{e9}\u{e9}"@,
            ShipmentStatus::Pickup => "Pris en charge"@,
            ShipmentStatus::InTransit => "En transit"@,
            ShipmentStatus::OutForDelivery => "En cours de livraison"@,
            ShipmentStatus::Delivered => "Livr\u{e9}"@,
            ShipmentStatus::Exception => "Incident"@,
            ShipmentStatus::Returned => "Retourn\u{e9}"@,
            ShipmentStatus::Unknown => "Inconnu"@,
        }
    }

    /// Returns the human-readable description of the status.
    pub fn label(&self) -> (r: String)
        ensures
            r@ == self.spec_label(),
    {
        match self {
            ShipmentStatus::Created => String::from_str("Cr\u{e9}\u{e9}"),
            ShipmentStatus::Pickup => String::from_str("Pris en charge"),
            ShipmentStatus::InTransit => String::from_str("En transit"),
            ShipmentStatus::OutForDelivery => String::from_str("En cours de livraison"),
            ShipmentStatus::Delivered => String::from_str("Livr\u{e9}"),
            ShipmentStatus::Exception => String::from_str("Incident"),
            ShipmentStatus::Returned => String::from_str("Retourn\u{e9}"),
            ShipmentStatus::Unknown => String::from_str("Inconnu"),
        }
    }
}

/// The format of a generated shipping label. A closed set.
#[derive(Debug, Clone, Copy, PartialEq, Eq, Hash, Structural)]
pub enum LabelFormat {
    PDF,
    ZPL,
    PNG,
}

/// A postal address. A plain value object: copied freely, no shared
/// ownership. Whether it is valid is the validator's business, not the
/// constructor's.
#[derive(Debug, Clone, PartialEq, Eq)]
pub struct Address {
    pub name: String,
    pub company: Option<String>,
    pub street1: String,
    pub street2: Option<String>,
    pub city: String,
    pub state: Option<String>,
    pub postal_code: String,
    pub country: String,
    pub phone: Option<String>,
    pub email: Option<String>,
}

impl Address {
    /// Creates an address from the minimal required information.
    pub fn new(name: &str, street: &str, postal_code: &str, city: &str, country: &str) -> (r:
        Address)
        ensures
            r.name@ == name@,
            r.company is None,
            r.street1@ == street@,
            r.street2 is None,
            r.city@ == city@,
            r.state is None,
            r.postal_code@ == postal_code@,
            r.country@ == country@,
            r.phone is None,
            r.email is None,
    {
        Address {
            name: String::from_str(name),
            company: None,
            street1: String::from_str(street),
            street2: None,
            city: String::from_str(city),
            state: None,
            postal_code: String::from_str(postal_code),
            country: String::from_str(country),
            phone: None,
            email: None,
        }
    }

    /// Adds a company name.
    pub fn with_company(self, company: &str) -> (r: Address)
        ensures
            r.company matches Some(c) && c@ == company@,
            r.name == self.name,
            r.street1 == self.street1,
            r.street2 == self.street2,
            r.city == self.city,
            r.state == self.state,
            r.postal_code == self.postal_code,
            r.country == self.country,
            r.phone == self.phone,
            r.email == self.email,
    {
        Address { company: Some(String::from_str(company)), ..self }
    }

    /// Adds a second street line.
    pub fn with_street2(self, street2: &str) -> (r: Address)
        ensures
            r.street2 matches Some(s) && s@ == street2@,
            r.name == self.name,
            r.company == self.company,
            r.street1 == self.street1,
            r.city == self.city,
            r.state == self.state,
            r.postal_code == self.postal_code,
            r.country == self.country,
            r.phone == self.phone,
            r.email == self.email,
    {
        Address { street2: Some(String::from_str(street2)), ..self }
    }

    /// Adds a state or region.
    pub fn with_state(self, state: &str) -> (r: Address)
        ensures
            r.state matches Some(s) && s@ == state@,
            r.name == self.name,
            r.company == self.company,
            r.street1 == self.street1,
            r.street2 == self.street2,
            r.city == self.city,
            r.postal_code == self.postal_code,
            r.country == self.country,
            r.phone == self.phone,
            r.email == self.email,
    {
        Address { state: Some(String::from_str(state)), ..self }
    }

    /// Adds a phone number.
    pub fn with_phone(self, phone: &str) -> (r: Address)
        ensures
            r.phone matches Some(p) && p@ == phone@,
            r.name == self.name,
            r.company == self.company,
            r.street1 == self.street1,
            r.street2 == self.street2,
            r.city == self.city,
            r.state == self.state,
            r.postal_code == self.postal_code,
            r.country == self.country,
            r.email == self.email,
    {
        Address { phone: Some(String::from_str(phone)), ..self }
    }

    /// Adds an email address.
    pub fn with_email(self, email: &str) -> (r: Address)
        ensures
            r.email matches Some(e) && e@ == email@,
            r.name == self.name,
            r.company == self.company,
            r.street1 == self.street1,
            r.street2 == self.street2,
            r.city == self.city,
            r.state == self.state,
            r.postal_code == self.postal_code,
            r.country == self.country,
            r.phone == self.phone,
    {
        Address { email: Some(String::from_str(email)), ..self }
    }
}

/// Generates a fresh, effectively unique parcel identifier.
///
/// Relies on `uuid::Uuid::new_v4`, which draws a random version-4 UUID, and
/// on `uuid::Uuid::as_u128`, which returns its 128 bits. The result is
/// random, so nothing is promised of it.
#[verifier::external_body]
fn fresh_parcel_id() -> u128 {
    uuid::Uuid::new_v4().as_u128()
}

/// A parcel to ship. Weight is in grams, dimensions in millimetres, the
/// declared insurance value in minor currency units (cents); the validator
/// requires weight and dimensions to be positive.
#[derive(Debug, Clone, PartialEq, Eq)]
pub struct Parcel {
    /// A unique identifier, generated at creation and stable for the
    /// parcel's lifetime.
    pub id: u128,
    /// Weight in grams.
    pub weight: u64,
    /// Length in millimetres.
    pub length: u64,
    /// Width in millimetres.
    pub width: u64,
    /// Height in millimetres.
    pub height: u64,
    pub sender: Address,
    pub recipient: Address,
    /// Declared insurance value in minor currency units.
    pub insurance_value: Option<u64>,
    pub description: Option<String>,
    pub reference: Option<String>,
    pub is_return: bool,
}

impl Parcel {
    /// Creates an empty parcel with a fresh unique identifier. Every other
    /// field starts at its neutral value and is filled in by the builder
    /// methods.
    pub fn new() -> (r: Parcel)
        ensures
            r.weight == 0,
            r.length == 0,
            r.width == 0,
            r.height == 0,
            r.sender.name@ == Seq::<char>::empty(),
            r.sender.street1@ == Seq::<char>::empty(),
            r.sender.postal_code@ == Seq::<char>::empty(),
            r.sender.city@ == Seq::<char>::empty(),
            r.sender.country@ == Seq::<char>::empty(),
            r.recipient.name@ == Seq::<char>::empty(),
            r.recipient.street1@ == Seq::<char>::empty(),
            r.recipient.postal_code@ == Seq::<char>::empty(),
            r.recipient.city@ == Seq::<char>::empty(),
            r.recipient.country@ == Seq::<char>::empty(),
            r.insurance_value is None,
            r.description is None,
            r.reference is None,
            r.is_return == false,
    {
        proof {
            reveal_strlit("");
        }
        Parcel {
            id: fresh_parcel_id(),
            weight: 0,
            length: 0,
            width: 0,
            height: 0,
            sender: Address::new("", "", "", "", ""),
            recipient: Address::new("", "", "", "", ""),
            insurance_value: None,
            description: None,
            reference: None,
            is_return: false,
        }
    }

    /// Sets the weight, in grams.
    pub fn with_weight(self, weight: u64) -> (r: Parcel)
        ensures
            r == (Parcel { weight, ..self }),
    {
        Parcel { weight, ..self }
    }

    /// Sets the dimensions, in millimetres.
    pub fn with_dimensions(self, length: u64, width: u64, height: u64) -> (r: Parcel)
        ensures
            r == (Parcel { length, width, height, ..self }),
    {
        Parcel { length, width, height, ..self }
    }

    /// Sets the sender address.
    pub fn with_sender(
        self,
        name: &str,
        street: &str,
        postal_code: &str,
        city: &str,
        country: &str,
    ) -> (r: Parcel)
        ensures
            r.sender.name@ == name@,
            r.sender.street1@ == street@,
            r.sender.postal_code@ == postal_code@,
            r.sender.city@ == city@,
            r.sender.country@ == country@,
            r.sender.company is None,
            r.sender.street2 is None,
            r.sender.state is None,
            r.sender.phone is None,
            r.sender.email is None,
            r == (Parcel { sender: r.sender, ..self }),
    {
        Parcel { sender: Address::new(name, street, postal_code, city, country), ..self }
    }

    /// Sets the recipient address.
    pub fn with_recipient(
        self,
        name: &str,
        street: &str,
        postal_code: &str,
        city: &str,
        country: &str,
    ) -> (r: Parcel)
        ensures
            r.recipient.name@ == name@,
            r.recipient.street1@ == street@,
            r.recipient.postal_code@ == postal_code@,
            r.recipient.city@ == city@,
            r.recipient.country@ == country@,
            r.recipient.company is None,
            r.recipient.street2 is None,
            r.recipient.state is None,
            r.recipient.phone is None,
            r.recipient.email is None,
            r == (Parcel { recipient: r.recipient, ..self }),
    {
        Parcel { recipient: Address::new(name, street, postal_code, city, country), ..self }
    }

    /// Sets the declared insurance value, in minor currency units.
    pub fn with_insurance(self, value: u64) -> (r: Parcel)
        ensures
            r == (Parcel { insurance_value: Some(value), ..self }),
    {
        Parcel { insurance_value: Some(value), ..self }
    }

    /// Adds a free-text description.
    pub fn with_description(self, description: &str) -> (r: Parcel)
        ensures
            r.description matches Some(d) && d@ == description@,
            r == (Parcel { description: r.description, ..self }),
    {
        Parcel { description: Some(String::from_str(description)), ..self }
    }

    /// Adds a customer reference.
    pub fn with_reference(self, reference: &str) -> (r: Parcel)
        ensures
            r.reference matches Some(f) && f@ == reference@,
            r == (Parcel { reference: r.reference, ..self }),
    {
        Parcel { reference: Some(String::from_str(reference)), ..self }
    }

    /// Marks the parcel as a return shipment.
    pub fn as_return(self) -> (r: Parcel)
        ensures
            r == (Parcel { is_return: true, ..self }),
    {
        Parcel { is_return: true, ..self }
    }
}

impl Default for Parcel {
    /// The default parcel is the empty one `new` creates, with a fresh
    /// identifier.
    fn default() -> (r: Parcel)
        ensures
            r.weight == 0,
            r.length == 0,
            r.width == 0,
            r.height == 0,
            r.insurance_value is None,
            r.description is None,
            r.reference is None,
            r.is_return == false,
    {
        Parcel::new()
    }
}

/// One shipping option quoted by a carrier. Price is in minor currency
/// units (cents); timestamps are seconds since the Unix epoch. Immutable
/// once returned.
#[derive(Debug, Clone, PartialEq, Eq)]
pub struct Rate {
    /// The carrier-assigned, opaque identifier of the quote.
    pub id: String,
    pub carrier: CarrierCode,
    /// A human-readable service name.
    pub service: String,
    /// The carrier-internal service code.
    pub service_code: String,
    /// Price in minor currency units.
    pub price: u64,
    pub currency: String,
    /// Estimated delivery, in seconds since the Unix epoch.
    pub estimated_delivery: Option<i64>,
    pub delivery_days: Option<u32>,
    pub guaranteed_delivery: bool,
    /// Named options such as signature or insurance.
    pub features: Vec<String>,
}

/// One tracking event reported by a carrier. The original carrier status
/// code is preserved beside the normalized status for audit purposes.
#[derive(Debug, Clone, PartialEq, Eq)]
pub struct TrackingEvent {
    /// Seconds since the Unix epoch.
    pub timestamp: i64,
    pub status: ShipmentStatus,
    pub location: Option<String>,
    pub description: String,
    /// The carrier's own status code, unmodified.
    pub raw_status: String,
}

/// The full tracking picture of a parcel, as assembled from one carrier's
/// responses. Events are chronological, as returned by the carrier.
#[derive(Debug, Clone, PartialEq, Eq)]
pub struct TrackingInfo {
    pub tracking_number: String,
    pub carrier: CarrierCode,
    pub status: ShipmentStatus,
    /// Seconds since the Unix epoch.
    pub estimated_delivery: Option<i64>,
    /// Seconds since the Unix epoch.
    pub shipped_at: Option<i64>,
    /// Seconds since the Unix epoch.
    pub delivered_at: Option<i64>,
    pub events: Vec<TrackingEvent>,
    pub signature_name: Option<String>,
}

/// A generated shipping label: immutable output data, persisted by the
/// caller. Timestamps are seconds since the Unix epoch.
#[derive(Debug, Clone, PartialEq, Eq)]
pub struct ShippingLabel {
    pub carrier: CarrierCode,
    pub tracking_number: String,
    pub label_format: LabelFormat,
    pub label_data: Vec<u8>,
    /// Seconds since the Unix epoch.
    pub created_at: i64,
    /// Seconds since the Unix epoch.
    pub expires_at: Option<i64>,
}

/// The minimal identity a carrier exposes: a stable code and a
/// human-readable name.
pub trait Carrier {
    /// Returns the carrier's identity code.
    fn code(&self) -> CarrierCode;

    /// Returns the carrier's display name.
    fn name(&self) -> String;
}

} // verus!
