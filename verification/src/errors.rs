//! The error taxonomy of the library. Validation errors are resolved
//! locally and never reach a carrier; every other error is passed through
//! from the carrier collaborator unmodified.

use vstd::prelude::*;

verus! {

/// Everything that can go wrong when shopping rates, generating labels or
/// tracking parcels. Transport-level failures (HTTP, I/O, decoding) are
/// carried as plain messages: producing them is the carrier collaborator's
/// business, not this library's.
#[derive(Debug, Clone, PartialEq, Eq)]
pub enum DeliveryError {
    /// The carrier's API reported a failure.
    ApiError(String),
    /// The operation was addressed to an identity no carrier is registered
    /// under.
    UnknownCarrier(String),
    /// No registered carrier can handle the requested service.
    UnsupportedService(String),
    /// No registered carrier recognizes the tracking-number format.
    UnsupportedTrackingNumber(String),
    /// The parcel failed local validation.
    InvalidParcel(String),
    /// The address failed local validation.
    InvalidAddress(String),
    /// A previously obtained rate is no longer usable.
    RateUnavailable,
    /// The carrier rejected the credentials.
    AuthenticationError,
    /// The carrier could not create the label.
    LabelGenerationError(String),
    /// The carrier's endpoint was unreachable.
    ConnectionError(String),
    /// The carrier's response could not be decoded.
    SerializationError(String),
    /// The caller cancelled the operation.
    OperationCancelled(String),
    /// An unanticipated internal failure.
    InternalError(String),
    /// A transport-level HTTP failure, as reported by the carrier's client.
    HttpError(String),
    /// An I/O failure, as reported by the surrounding application.
    IoError(String),
    /// A JSON (de)serialization failure, as reported by the carrier's client.
    JsonError(String),
    /// A failure nothing else describes.
    Unknown(String),
}

impl DeliveryError {
    /// The short description `describe` returns for each error.
    pub open spec fn spec_describe(self) -> Seq<char> {
        match self {
            DeliveryError::ApiError(m) => "Erreur d'API du transporteur: "@ + m@,
            DeliveryError::UnknownCarrier(m) => "Transporteur inconnu: "@ + m@,
            DeliveryError::UnsupportedService(m) => "Service non support\u{e9}: "@ + m@,
            DeliveryError::UnsupportedTrackingNumber(m) =>
                "Format de num\u{e9}ro de suivi non support\u{e9}: "@ + m@,
            DeliveryError::InvalidParcel(m) => "Colis invalide: "@ + m@,
            DeliveryError::InvalidAddress(m) => "Adresse invalide: "@ + m@,
            DeliveryError::RateUnavailable => "Taux non disponible"@,
            DeliveryError::AuthenticationError => "Authentification invalide"@,
            DeliveryError::LabelGenerationError(m) =>
                "Erreur lors de la g\u{e9}n\u{e9}ration de l'\u{e9}tiquette: "@ + m@,
            DeliveryError::ConnectionError(m) => "Erreur de connexion: "@ + m@,
            DeliveryError::SerializationError(m) => "Erreur de s\u{e9}rialisation: "@ + m@,
            DeliveryError::OperationCancelled(m) => "Op\u{e9}ration annul\u{e9}e: "@ + m@,
            DeliveryError::InternalError(m) => "Erreur interne: "@ + m@,
            DeliveryError::HttpError(m) => "Erreur HTTP: "@ + m@,
            DeliveryError::IoError(m) => "Erreur d'E/S: "@ + m@,
            DeliveryError::JsonError(m) => "Erreur de s\u{e9}rialisation JSON: "@ + m@,
            DeliveryError::Unknown(m) => "Erreur inconnue: "@ + m@,
        }
    }

    /// Returns a short description of the error, with its context where it
    /// carries one.
    pub fn describe(&self) -> (r: String)
        ensures
            r@ == self.spec_describe(),
    {
        let (head, detail): (&str, Option<&String>) = match self {
            DeliveryError::ApiError(m) => ("Erreur d'API du transporteur: ", Some(m)),
            DeliveryError::UnknownCarrier(m) => ("Transporteur inconnu: ", Some(m)),
            DeliveryError::UnsupportedService(m) => ("Service non support\u{e9}: ", Some(m)),
            DeliveryError::UnsupportedTrackingNumber(m) => (
                "Format de num\u{e9}ro de suivi non support\u{e9}: ",
                Some(m),
            ),
            DeliveryError::InvalidParcel(m) => ("Colis invalide: ", Some(m)),
            DeliveryError::InvalidAddress(m) => ("Adresse invalide: ", Some(m)),
            DeliveryError::RateUnavailable => ("Taux non disponible", None),
            DeliveryError::AuthenticationError => ("Authentification invalide", None),
            DeliveryError::LabelGenerationError(m) => (
                "Erreur lors de la g\u{e9}n\u{e9}ration de l'\u{e9}tiquette: ",
                Some(m),
            ),
            DeliveryError::ConnectionError(m) => ("Erreur de connexion: ", Some(m)),
            DeliveryError::SerializationError(m) => ("Erreur de s\u{e9}rialisation: ", Some(m)),
            DeliveryError::OperationCancelled(m) => ("Op\u{e9}ration annul\u{e9}e: ", Some(m)),
            DeliveryError::InternalError(m) => ("Erreur interne: ", Some(m)),
            DeliveryError::HttpError(m) => ("Erreur HTTP: ", Some(m)),
            DeliveryError::IoError(m) => ("Erreur d'E/S: ", Some(m)),
            DeliveryError::JsonError(m) => ("Erreur de s\u{e9}rialisation JSON: ", Some(m)),
            DeliveryError::Unknown(m) => ("Erreur inconnue: ", Some(m)),
        };
        let mut out = String::from_str(head);
        match detail {
            Some(d) => {
                out.append(d.as_str());
                out
            },
            None => out,
        }
    }
}

/// The result type every operation of the library returns.
pub type DeliveryResult<T> = Result<T, DeliveryError>;

} // verus!
