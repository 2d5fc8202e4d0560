use multicarrier::errors::DeliveryError;
use multicarrier::manager::ShippingManager;
use multicarrier::models::{
    Address, CarrierCode, LabelFormat, Parcel, Rate, ShipmentStatus, ShippingLabel, TrackingInfo,
};
use multicarrier::traits::{
    DataNormalizer, LabelGenerator, RateProvider, ShipmentTracker, ShippingCarrier,
};

/// A scripted carrier: recognizes tracking numbers with a fixed suffix,
/// quotes one fixed rate (or a scripted failure), and labels parcels
/// against a fixed rate identifier.
struct MockCarrier {
    code: CarrierCode,
    name: &'static str,
    tracking_suffix: &'static str,
    rates_fail_with: Option<DeliveryError>,
    known_rate_id: &'static str,
    available: bool,
}

impl MockCarrier {
    fn rate(&self) -> Rate {
        Rate {
            id: self.known_rate_id.to_string(),
            carrier: self.code,
            service: "Standard".to_string(),
            service_code: "STD".to_string(),
            price: 1250,
            currency: "EUR".to_string(),
            estimated_delivery: Some(1_700_000_000),
            delivery_days: Some(2),
            guaranteed_delivery: false,
            features: vec!["signature".to_string()],
        }
    }
}

impl RateProvider for MockCarrier {
    fn get_rates_blocking(&self, _parcel: &Parcel) -> Result<Vec<Rate>, DeliveryError> {
        match &self.rates_fail_with {
            Some(e) => Err(e.clone()),
            None => Ok(vec![self.rate()]),
        }
    }
}

impl LabelGenerator for MockCarrier {
    fn generate_label_blocking(
        &self,
        _parcel: &Parcel,
        rate: &Rate,
    ) -> Result<ShippingLabel, DeliveryError> {
        if rate.id != self.known_rate_id {
            return Err(DeliveryError::RateUnavailable);
        }
        Ok(ShippingLabel {
            carrier: self.code,
            tracking_number: format!("TRK-{}", self.name),
            label_format: LabelFormat::PDF,
            label_data: vec![0x25, 0x50, 0x44, 0x46],
            created_at: 1_700_000_000,
            expires_at: None,
        })
    }
}

impl ShipmentTracker for MockCarrier {
    fn track_parcel_blocking(
        &self,
        tracking_number: &str,
    ) -> Result<TrackingInfo, DeliveryError> {
        Ok(TrackingInfo {
            tracking_number: tracking_number.to_string(),
            carrier: self.code,
            status: ShipmentStatus::InTransit,
            estimated_delivery: None,
            shipped_at: Some(1_699_000_000),
            delivered_at: None,
            events: vec![],
            signature_name: None,
        })
    }

    fn can_track(&self, tracking_number: &str) -> bool {
        tracking_number.len() == 13 && tracking_number.ends_with(self.tracking_suffix)
    }
}

impl DataNormalizer for MockCarrier {
    fn normalize_status_code(&self, carrier_status: &str) -> String {
        carrier_status.to_uppercase()
    }

    fn normalize_address(&self, _address: &mut Address) -> Result<(), DeliveryError> {
        Ok(())
    }

    fn validate_address(&self, address: &Address) -> Result<(), DeliveryError> {
        multicarrier::validation::validate_address(address)
    }
}

impl ShippingCarrier for MockCarrier {
    fn carrier_code(&self) -> CarrierCode {
        self.code
    }

    fn carrier_name(&self) -> String {
        self.name.to_string()
    }

    fn is_available_blocking(&self) -> bool {
        self.available
    }
}

fn french_carrier() -> MockCarrier {
    MockCarrier {
        code: CarrierCode::Colissimo,
        name: "Colissimo",
        tracking_suffix: "FR",
        rates_fail_with: None,
        known_rate_id: "col-1",
        available: true,
    }
}

fn german_suffix_carrier() -> MockCarrier {
    MockCarrier {
        code: CarrierCode::DHL,
        name: "DHL",
        tracking_suffix: "DE",
        rates_fail_with: None,
        known_rate_id: "dhl-1",
        available: false,
    }
}

fn failing_carrier() -> MockCarrier {
    MockCarrier {
        code: CarrierCode::UPS,
        name: "UPS",
        tracking_suffix: "US",
        rates_fail_with: Some(DeliveryError::ConnectionError("timeout".to_string())),
        known_rate_id: "ups-1",
        available: true,
    }
}

fn sample_parcel() -> Parcel {
    Parcel::new()
        .with_weight(1500)
        .with_dimensions(300, 200, 100)
        .with_sender("Alice Martin", "1 rue de la Paix", "75001", "Paris", "FR")
        .with_recipient("Bob Durand", "2 avenue Victor Hugo", "69001", "Lyon", "FR")
}

#[test]
fn get_all_rates_has_one_entry_per_carrier_even_when_one_fails() {
    let mut manager = ShippingManager::new();
    manager.add_carrier(french_carrier());
    manager.add_carrier(failing_carrier());
    let results = manager.get_all_rates(&sample_parcel());
    assert_eq!(results.len(), 2);
    let colissimo = results
        .iter()
        .find(|(code, _)| *code == CarrierCode::Colissimo)
        .expect("Colissimo entry missing");
    assert!(matches!(&colissimo.1, Ok(rates) if rates.len() == 1));
    let ups = results
        .iter()
        .find(|(code, _)| *code == CarrierCode::UPS)
        .expect("UPS entry missing");
    assert!(matches!(
        &ups.1,
        Err(DeliveryError::ConnectionError(m)) if m == "timeout"
    ));
}

#[test]
fn get_rates_for_unknown_carrier_fails_with_unknown_carrier() {
    let mut manager = ShippingManager::new();
    manager.add_carrier(french_carrier());
    match manager.get_rates_blocking(&CarrierCode::FedEx, &sample_parcel()) {
        Err(DeliveryError::UnknownCarrier(m)) => assert_eq!(m, "FedEx"),
        other => panic!("expected UnknownCarrier, got {:?}", other),
    }
}

#[test]
fn get_rates_for_registered_carrier_delegates() {
    let mut manager = ShippingManager::new();
    manager.add_carrier(french_carrier());
    let rates = manager
        .get_rates_blocking(&CarrierCode::Colissimo, &sample_parcel())
        .expect("rates expected");
    assert_eq!(rates.len(), 1);
    assert_eq!(rates[0].carrier, CarrierCode::Colissimo);
    assert_eq!(rates[0].price, 1250);
}

#[test]
fn generate_label_for_unknown_carrier_fails_with_unknown_carrier() {
    let manager: ShippingManager<MockCarrier> = ShippingManager::new();
    let rate = french_carrier().rate();
    match manager.generate_label_blocking(&CarrierCode::Colissimo, &sample_parcel(), &rate) {
        Err(DeliveryError::UnknownCarrier(m)) => assert_eq!(m, "Colissimo"),
        other => panic!("expected UnknownCarrier, got {:?}", other),
    }
}

#[test]
fn generate_label_delegates_and_carrier_rejects_stale_rate() {
    let mut manager = ShippingManager::new();
    manager.add_carrier(french_carrier());
    let good = french_carrier().rate();
    let label = manager
        .generate_label_blocking(&CarrierCode::Colissimo, &sample_parcel(), &good)
        .expect("label expected");
    assert_eq!(label.carrier, CarrierCode::Colissimo);
    assert_eq!(label.label_format, LabelFormat::PDF);

    let mut stale = french_carrier().rate();
    stale.id = "expired".to_string();
    match manager.generate_label_blocking(&CarrierCode::Colissimo, &sample_parcel(), &stale) {
        Err(DeliveryError::RateUnavailable) => {}
        other => panic!("expected RateUnavailable, got {:?}", other),
    }
}

#[test]
fn track_parcel_with_no_recognizing_carrier_fails_unsupported() {
    let mut manager = ShippingManager::new();
    manager.add_carrier(french_carrier());
    manager.add_carrier(german_suffix_carrier());
    match manager.track_parcel_blocking("123456789012") {
        Err(DeliveryError::UnsupportedTrackingNumber(m)) => assert_eq!(m, "123456789012"),
        other => panic!("expected UnsupportedTrackingNumber, got {:?}", other),
    }
}

#[test]
fn track_parcel_on_empty_registry_fails_unsupported() {
    let manager: ShippingManager<MockCarrier> = ShippingManager::new();
    match manager.track_parcel_blocking("6A123456789FR") {
        Err(DeliveryError::UnsupportedTrackingNumber(_)) => {}
        other => panic!("expected UnsupportedTrackingNumber, got {:?}", other),
    }
}

#[test]
fn track_parcel_routes_to_the_recognizing_carrier() {
    let mut manager = ShippingManager::new();
    manager.add_carrier(german_suffix_carrier());
    manager.add_carrier(french_carrier());
    let info = manager
        .track_parcel_blocking("6A123456789FR")
        .expect("tracking expected");
    assert_eq!(info.carrier, CarrierCode::Colissimo);
    assert_eq!(info.tracking_number, "6A123456789FR");

    let info = manager
        .track_parcel_blocking("6A123456789DE")
        .expect("tracking expected");
    assert_eq!(info.carrier, CarrierCode::DHL);
}

#[test]
fn french_tracking_number_recognized_only_by_the_french_carrier() {
    let french = french_carrier();
    let german = german_suffix_carrier();
    assert!(french.can_track("6A123456789FR"));
    assert!(!german.can_track("6A123456789FR"));
    assert!(!french.can_track("6A123456789DE"));
}

#[test]
fn is_carrier_available_false_for_unregistered_and_delegates_otherwise() {
    let mut manager = ShippingManager::new();
    manager.add_carrier(french_carrier());
    manager.add_carrier(german_suffix_carrier());
    assert!(!manager.is_carrier_available(&CarrierCode::FedEx));
    assert!(manager.is_carrier_available(&CarrierCode::Colissimo));
    assert!(!manager.is_carrier_available(&CarrierCode::DHL));
}

#[test]
fn get_carrier_returns_a_shared_handle() {
    let mut manager = ShippingManager::new();
    manager.add_carrier(french_carrier());
    let handle = manager
        .get_carrier(&CarrierCode::Colissimo)
        .expect("carrier expected");
    assert_eq!(handle.carrier_name(), "Colissimo");
    assert!(manager.get_carrier(&CarrierCode::UPS).is_none());
}

#[test]
fn add_carrier_replaces_an_existing_registration() {
    let mut manager = ShippingManager::new();
    manager.add_carrier(french_carrier());
    let replacement = MockCarrier {
        name: "Colissimo v2",
        ..french_carrier()
    };
    manager.add_carrier(replacement);
    let listed = manager.list_carriers();
    assert_eq!(listed.len(), 1);
    assert_eq!(listed[0].0, CarrierCode::Colissimo);
    assert_eq!(listed[0].1, "Colissimo v2");
}

#[test]
fn list_carriers_names_every_registration() {
    let mut manager = ShippingManager::new();
    manager.add_carrier(french_carrier());
    manager.add_carrier(german_suffix_carrier());
    let mut listed = manager.list_carriers();
    listed.sort();
    assert_eq!(
        listed,
        vec![
            (CarrierCode::Colissimo, "Colissimo".to_string()),
            (CarrierCode::DHL, "DHL".to_string()),
        ]
    );
}

#[test]
fn parcel_builders_fill_fields() {
    let parcel = sample_parcel()
        .with_insurance(5000)
        .with_description("Books")
        .with_reference("ORDER-42")
        .as_return();
    assert_eq!(parcel.weight, 1500);
    assert_eq!(parcel.length, 300);
    assert_eq!(parcel.width, 200);
    assert_eq!(parcel.height, 100);
    assert_eq!(parcel.insurance_value, Some(5000));
    assert_eq!(parcel.description.as_deref(), Some("Books"));
    assert_eq!(parcel.reference.as_deref(), Some("ORDER-42"));
    assert!(parcel.is_return);
    assert_eq!(parcel.sender.city, "Paris");
    assert_eq!(parcel.recipient.city, "Lyon");
}

#[test]
fn fresh_parcels_get_distinct_identifiers() {
    let a = Parcel::new();
    let b = Parcel::new();
    assert_ne!(a.id, b.id);
}

#[test]
fn address_builders_fill_fields() {
    let address = Address::new("Alice Martin", "1 rue de la Paix", "75001", "Paris", "FR")
        .with_company("Exemple SARL")
        .with_street2("Escalier B")
        .with_state("IDF")
        .with_phone("+33123456789")
        .with_email("alice@example.fr");
    assert_eq!(address.name, "Alice Martin");
    assert_eq!(address.company.as_deref(), Some("Exemple SARL"));
    assert_eq!(address.street2.as_deref(), Some("Escalier B"));
    assert_eq!(address.state.as_deref(), Some("IDF"));
    assert_eq!(address.phone.as_deref(), Some("+33123456789"));
    assert_eq!(address.email.as_deref(), Some("alice@example.fr"));
}
