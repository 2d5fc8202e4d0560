use multicarrier::models::{CarrierCode, ShipmentStatus};
use multicarrier::status::{
    normalize_status, normalize_status_chronopost, normalize_status_colissimo,
    normalize_status_dhl, normalize_status_fedex, normalize_status_ups,
};

#[test]
fn liv_for_colissimo_normalizes_to_delivered() {
    assert_eq!(
        normalize_status("LIV", CarrierCode::Colissimo),
        ShipmentStatus::Delivered
    );
}

#[test]
fn zzz_normalizes_to_unknown_for_every_carrier() {
    let carriers = [
        CarrierCode::Colissimo,
        CarrierCode::Chronopost,
        CarrierCode::FedEx,
        CarrierCode::UPS,
        CarrierCode::DHL,
    ];
    for carrier in carriers {
        assert_eq!(normalize_status("ZZZ", carrier), ShipmentStatus::Unknown);
    }
}

#[test]
fn empty_code_normalizes_to_unknown_for_every_carrier() {
    let carriers = [
        CarrierCode::Colissimo,
        CarrierCode::Chronopost,
        CarrierCode::FedEx,
        CarrierCode::UPS,
        CarrierCode::DHL,
    ];
    for carrier in carriers {
        assert_eq!(normalize_status("", carrier), ShipmentStatus::Unknown);
    }
}

#[test]
fn colissimo_table() {
    assert_eq!(normalize_status_colissimo("PRC"), ShipmentStatus::Pickup);
    assert_eq!(normalize_status_colissimo("PCH"), ShipmentStatus::Pickup);
    assert_eq!(normalize_status_colissimo("PDR"), ShipmentStatus::InTransit);
    assert_eq!(normalize_status_colissimo("PCHTRI"), ShipmentStatus::InTransit);
    assert_eq!(normalize_status_colissimo("PRES"), ShipmentStatus::OutForDelivery);
    assert_eq!(normalize_status_colissimo("AARBPR"), ShipmentStatus::OutForDelivery);
    assert_eq!(normalize_status_colissimo("PRELIV"), ShipmentStatus::OutForDelivery);
    assert_eq!(normalize_status_colissimo("LIV"), ShipmentStatus::Delivered);
    assert_eq!(normalize_status_colissimo("LIVRI"), ShipmentStatus::Delivered);
    assert_eq!(normalize_status_colissimo("LIVCFM"), ShipmentStatus::Delivered);
    assert_eq!(normalize_status_colissimo("ANOML"), ShipmentStatus::Exception);
    assert_eq!(normalize_status_colissimo("RET"), ShipmentStatus::Returned);
    assert_eq!(normalize_status_colissimo("PCHMQT"), ShipmentStatus::Created);
    assert_eq!(normalize_status_colissimo("liv"), ShipmentStatus::Unknown);
}

#[test]
fn chronopost_table() {
    assert_eq!(normalize_status_chronopost("A"), ShipmentStatus::Created);
    assert_eq!(normalize_status_chronopost("B"), ShipmentStatus::Pickup);
    assert_eq!(normalize_status_chronopost("C"), ShipmentStatus::InTransit);
    assert_eq!(normalize_status_chronopost("D"), ShipmentStatus::InTransit);
    assert_eq!(normalize_status_chronopost("E"), ShipmentStatus::InTransit);
    assert_eq!(normalize_status_chronopost("F"), ShipmentStatus::OutForDelivery);
    assert_eq!(normalize_status_chronopost("G"), ShipmentStatus::Delivered);
    assert_eq!(normalize_status_chronopost("H"), ShipmentStatus::Exception);
    assert_eq!(normalize_status_chronopost("I"), ShipmentStatus::Returned);
    assert_eq!(normalize_status_chronopost("J"), ShipmentStatus::Unknown);
}

#[test]
fn fedex_table() {
    assert_eq!(normalize_status_fedex("AA"), ShipmentStatus::Created);
    assert_eq!(normalize_status_fedex("PU"), ShipmentStatus::Pickup);
    assert_eq!(normalize_status_fedex("IT"), ShipmentStatus::InTransit);
    assert_eq!(normalize_status_fedex("OD"), ShipmentStatus::OutForDelivery);
    assert_eq!(normalize_status_fedex("DL"), ShipmentStatus::Delivered);
    assert_eq!(normalize_status_fedex("DE"), ShipmentStatus::Exception);
    assert_eq!(normalize_status_fedex("RT"), ShipmentStatus::Returned);
}

#[test]
fn ups_table() {
    assert_eq!(normalize_status_ups("M"), ShipmentStatus::Created);
    assert_eq!(normalize_status_ups("P"), ShipmentStatus::Pickup);
    assert_eq!(normalize_status_ups("I"), ShipmentStatus::InTransit);
    assert_eq!(normalize_status_ups("O"), ShipmentStatus::OutForDelivery);
    assert_eq!(normalize_status_ups("D"), ShipmentStatus::Delivered);
    assert_eq!(normalize_status_ups("X"), ShipmentStatus::Exception);
    assert_eq!(normalize_status_ups("R"), ShipmentStatus::Returned);
}

#[test]
fn dhl_table() {
    assert_eq!(normalize_status_dhl("SD"), ShipmentStatus::Created);
    assert_eq!(normalize_status_dhl("PU"), ShipmentStatus::Pickup);
    assert_eq!(normalize_status_dhl("IT"), ShipmentStatus::InTransit);
    assert_eq!(normalize_status_dhl("OD"), ShipmentStatus::OutForDelivery);
    assert_eq!(normalize_status_dhl("DL"), ShipmentStatus::Delivered);
    assert_eq!(normalize_status_dhl("EX"), ShipmentStatus::Exception);
    assert_eq!(normalize_status_dhl("RT"), ShipmentStatus::Returned);
}

#[test]
fn same_raw_code_may_normalize_differently_per_carrier() {
    assert_eq!(normalize_status("I", CarrierCode::Chronopost), ShipmentStatus::Returned);
    assert_eq!(normalize_status("I", CarrierCode::UPS), ShipmentStatus::InTransit);
}

#[test]
fn status_labels() {
    assert_eq!(ShipmentStatus::Delivered.label(), "Livr\u{e9}");
    assert_eq!(ShipmentStatus::Unknown.label(), "Inconnu");
    assert_eq!(ShipmentStatus::Created.label(), "Cr\u{e9}\u{e9}");
}
