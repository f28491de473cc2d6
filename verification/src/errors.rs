//! The bridge's error taxonomy and its mapping to R2 error-envelope codes.

use vstd::prelude::*;

verus! {

/// Errors surfaced to the requesting R2 session as an error envelope.
#[derive(Clone, PartialEq, Eq, Debug)]
pub enum ServiceError {
    /// Catch-all for unexpected internal failures.
    InternalServerError,
    /// JSON parse or emit failure.
    SerializationError(String),
    /// Malformed payload, bad URL, or missing required field.
    BadRequest(String),
    /// The HA client is absent while an HA-dependent request arrives.
    NotConnected,
    /// Reserved hooks.
    NotYetImplemented,
    /// The setup flow is not in the Running state.
    ServiceUnavailable(String),
}

/// The numeric code of the R2 error envelope for each error.
pub open spec fn error_code_spec(e: ServiceError) -> u16 {
    match e {
        ServiceError::InternalServerError => 500,
        ServiceError::SerializationError(_) => 400,
        ServiceError::BadRequest(_) => 400,
        ServiceError::NotConnected => 503,
        ServiceError::NotYetImplemented => 501,
        ServiceError::ServiceUnavailable(_) => 503,
    }
}

pub fn error_code(e: &ServiceError) -> (c: u16)
    ensures
        c == error_code_spec(*e),
{
    match e {
        ServiceError::InternalServerError => 500,
        ServiceError::SerializationError(_) => 400,
        ServiceError::BadRequest(_) => 400,
        ServiceError::NotConnected => 503,
        ServiceError::NotYetImplemented => 501,
        ServiceError::ServiceUnavailable(_) => 503,
    }
}

} // verus!
