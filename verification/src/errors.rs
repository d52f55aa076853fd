use vstd::prelude::*;

verus! {

/// The failure taxonomy of the read pipeline: text that does not parse as an
/// address or numeric id, a record the store does not hold, any other remote
/// failure, and fetched bytes that do not fit the fixed layout.
#[derive(Clone, Copy, Debug, PartialEq, Eq, Structural)]
pub enum ApiError {
    InvalidInput,
    NotFound,
    TransportError,
    MalformedRecord,
}

/// The HTTP status that each failure maps to: bad request for invalid input,
/// not found for a missing record, internal error for transport and decode
/// failures.
pub open spec fn spec_status_code(e: ApiError) -> u16 {
    match e {
        ApiError::InvalidInput => 400,
        ApiError::NotFound => 404,
        ApiError::TransportError => 500,
        ApiError::MalformedRecord => 500,
    }
}

impl ApiError {
    /// Maps the failure onto its externally visible HTTP status code.
    pub fn status_code(&self) -> (r: u16)
        ensures
            r == spec_status_code(*self),
    {
        match self {
            ApiError::InvalidInput => 400,
            ApiError::NotFound => 404,
            ApiError::TransportError => 500,
            ApiError::MalformedRecord => 500,
        }
    }
}

} // verus!
