//! A unification layer over multiple parcel-shipping carriers: one API to
//! obtain shipping rates, generate labels and track parcels, whichever
//! carrier ultimately services the request. The manager routes every
//! operation to the right registered carrier; validation and
//! normalization keep the heterogeneous carrier data comparable.

pub mod detect;
pub mod errors;
pub mod formatting;
pub mod geo;
pub mod manager;
pub mod models;
pub mod status;
pub mod strutil;
pub mod traits;
pub mod validation;

pub use crate::errors::{DeliveryError, DeliveryResult};
pub use crate::manager::ShippingManager;
pub use crate::models::{
    Address, Carrier, CarrierCode, LabelFormat, Parcel, Rate, ShipmentStatus, ShippingLabel,
    TrackingEvent, TrackingInfo,
};
pub use crate::traits::{
    DataNormalizer, LabelGenerator, RateProvider, ShipmentTracker, ShippingCarrier,
};
