use multicarrier::detect::detect_carrier_from_tracking;
use multicarrier::errors::DeliveryError;
use multicarrier::formatting::{format_address, format_phone, format_phone_france, format_phone_usa};
use multicarrier::geo::{
    country_name_from_code, get_countries, get_eu_countries, is_domestic_shipping, is_eu_country,
    is_eu_shipping, is_valid_country_code,
};
use multicarrier::models::{Address, CarrierCode};

#[test]
fn format_address_full() {
    let address = Address::new("Alice Martin", "1 rue de la Paix", "75001", "Paris", "FR")
        .with_company("Exemple SARL")
        .with_street2("Escalier B")
        .with_state("IDF");
    assert_eq!(
        format_address(&address),
        "Alice Martin\nExemple SARL\n1 rue de la Paix\nEscalier B\n75001 Paris IDF\nFR"
    );
}

#[test]
fn format_address_minimal_skips_blank_lines() {
    let address = Address::new("Alice Martin", "1 rue de la Paix", "75001", "Paris", "FR")
        .with_company("   ");
    assert_eq!(
        format_address(&address),
        "Alice Martin\n1 rue de la Paix\n75001 Paris\nFR"
    );
}

#[test]
fn format_phone_france_international() {
    assert_eq!(format_phone_france("+33 1 23 45 67 89"), "+33 1 23 45 67 89");
    assert_eq!(format_phone_france("33123456789"), "+33 1 23 45 67 89");
}

#[test]
fn format_phone_france_national() {
    assert_eq!(format_phone_france("0123456789"), "01 23 45 67 89");
    assert_eq!(format_phone_france("01.23.45.67.89"), "01 23 45 67 89");
}

#[test]
fn format_phone_france_passthrough_when_unrecognized() {
    assert_eq!(format_phone_france("12345"), "12345");
}

#[test]
fn format_phone_usa_international() {
    assert_eq!(format_phone_usa("12125551234"), "+1 (212) 555-1234");
}

#[test]
fn format_phone_usa_national() {
    assert_eq!(format_phone_usa("2125551234"), "(212) 555-1234");
    assert_eq!(format_phone_usa("(212) 555-1234"), "(212) 555-1234");
}

#[test]
fn format_phone_dispatches_by_country() {
    assert_eq!(format_phone("0123456789", "FR"), "01 23 45 67 89");
    assert_eq!(format_phone("2125551234", "US"), "(212) 555-1234");
    assert_eq!(format_phone("0123456789", "DE"), "0123456789");
}

#[test]
fn detect_carrier_by_format() {
    assert_eq!(detect_carrier_from_tracking("1Z345678901FR"), Some(CarrierCode::UPS));
    assert_eq!(detect_carrier_from_tracking("123456789012"), Some(CarrierCode::FedEx));
    assert_eq!(detect_carrier_from_tracking("6A123456789FR"), Some(CarrierCode::Colissimo));
    assert_eq!(detect_carrier_from_tracking("CH12345678"), Some(CarrierCode::Chronopost));
    assert_eq!(detect_carrier_from_tracking("XYZ"), None);
    assert_eq!(detect_carrier_from_tracking(""), None);
}

#[test]
fn country_lookup() {
    assert_eq!(country_name_from_code("FR"), Some("France".to_string()));
    assert_eq!(country_name_from_code("CA"), Some("Canada".to_string()));
    assert_eq!(country_name_from_code("XX"), None);
    assert!(is_valid_country_code("US"));
    assert!(!is_valid_country_code("ZZ"));
}

#[test]
fn country_table_contents() {
    let countries = get_countries();
    assert_eq!(countries.len(), 8);
    assert_eq!(countries[0].code, "FR");
    assert_eq!(countries[0].name, "France");
    assert_eq!(countries[0].phone_code, "33");
    assert_eq!(countries[7].code, "CA");
    assert_eq!(countries[7].phone_code, "1");
}

#[test]
fn domestic_and_eu_shipping() {
    assert!(is_domestic_shipping("FR", "FR"));
    assert!(!is_domestic_shipping("FR", "DE"));
    assert!(is_eu_shipping("FR", "DE"));
    assert!(is_eu_shipping("fr", "de"));
    assert!(!is_eu_shipping("FR", "US"));
    assert!(is_eu_country("se"));
    assert!(!is_eu_country("GB"));
    assert_eq!(get_eu_countries().len(), 27);
}

#[test]
fn error_descriptions() {
    assert_eq!(
        DeliveryError::UnknownCarrier("FedEx".to_string()).describe(),
        "Transporteur inconnu: FedEx"
    );
    assert_eq!(DeliveryError::RateUnavailable.describe(), "Taux non disponible");
    assert_eq!(
        DeliveryError::AuthenticationError.describe(),
        "Authentification invalide"
    );
    assert_eq!(
        DeliveryError::ApiError("boom".to_string()).describe(),
        "Erreur d'API du transporteur: boom"
    );
    assert_eq!(
        DeliveryError::UnsupportedService("x".to_string()).describe(),
        "Service non support\u{e9}: x"
    );
    assert_eq!(
        DeliveryError::UnsupportedTrackingNumber("t".to_string()).describe(),
        "Format de num\u{e9}ro de suivi non support\u{e9}: t"
    );
    assert_eq!(
        DeliveryError::InvalidParcel("p".to_string()).describe(),
        "Colis invalide: p"
    );
    assert_eq!(
        DeliveryError::InvalidAddress("a".to_string()).describe(),
        "Adresse invalide: a"
    );
    assert_eq!(
        DeliveryError::LabelGenerationError("l".to_string()).describe(),
        "Erreur lors de la g\u{e9}n\u{e9}ration de l'\u{e9}tiquette: l"
    );
    assert_eq!(
        DeliveryError::ConnectionError("c".to_string()).describe(),
        "Erreur de connexion: c"
    );
    assert_eq!(
        DeliveryError::SerializationError("s".to_string()).describe(),
        "Erreur de s\u{e9}rialisation: s"
    );
    assert_eq!(
        DeliveryError::OperationCancelled("o".to_string()).describe(),
        "Op\u{e9}ration annul\u{e9}e: o"
    );
    assert_eq!(
        DeliveryError::InternalError("i".to_string()).describe(),
        "Erreur interne: i"
    );
    assert_eq!(
        DeliveryError::HttpError("h".to_string()).describe(),
        "Erreur HTTP: h"
    );
    assert_eq!(
        DeliveryError::IoError("e".to_string()).describe(),
        "Erreur d'E/S: e"
    );
    assert_eq!(
        DeliveryError::JsonError("j".to_string()).describe(),
        "Erreur de s\u{e9}rialisation JSON: j"
    );
    assert_eq!(
        DeliveryError::Unknown("u".to_string()).describe(),
        "Erreur inconnue: u"
    );
}

#[test]
fn carrier_code_labels() {
    assert_eq!(CarrierCode::Colissimo.label(), "Colissimo");
    assert_eq!(CarrierCode::Chronopost.label(), "Chronopost");
    assert_eq!(CarrierCode::FedEx.label(), "FedEx");
    assert_eq!(CarrierCode::UPS.label(), "UPS");
    assert_eq!(CarrierCode::DHL.label(), "DHL");
}
