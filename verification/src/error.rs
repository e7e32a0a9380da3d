//! The failures of the service and the HTTP status that each one maps to.

use vstd::prelude::*;

verus! {

pub const OK: u16 = 200;

pub const NO_CONTENT: u16 = 204;

pub const BAD_REQUEST: u16 = 400;

pub const UNAUTHORIZED: u16 = 401;

pub const CONFLICT: u16 = 409;

pub const INTERNAL_SERVER_ERROR: u16 = 500;

/// `serde_json::Error`, carried through as it comes; nothing is known of what
/// it holds.
#[verifier::external_type_specification]
#[verifier::external_body]
pub struct ExJsonError(serde_json::Error);

/// Why a request failed.
#[derive(Debug)]
pub enum AppError {
    /// A failure that is fully described by its HTTP status.
    Status(u16),
    /// An instant supplied by the client did not parse.
    DateInputError(jiff::Error),
    /// An instant held by the store did not parse, or the clock or the
    /// calendar arithmetic failed.
    DateError(jiff::Error),
    /// The store failed; the text is its report.
    DBError(String),
    /// A payload could not be encoded or decoded as JSON.
    SerdeError(serde_json::Error),
}

impl AppError {
    /// The HTTP status of the failure.
    pub open spec fn spec_status_code(&self) -> u16 {
        match self {
            AppError::Status(code) => *code,
            AppError::DateInputError(_) => BAD_REQUEST,
            AppError::DateError(_) => INTERNAL_SERVER_ERROR,
            AppError::DBError(_) => INTERNAL_SERVER_ERROR,
            AppError::SerdeError(_) => INTERNAL_SERVER_ERROR,
        }
    }

    /// The HTTP status of the failure: the client is at fault for an instant
    /// that does not parse, the server for everything else that has no status
    /// of its own.
    #[verifier::when_used_as_spec(spec_status_code)]
    pub fn status_code(&self) -> (code: u16)
        ensures
            code == self.spec_status_code(),
    {
        match self {
            AppError::Status(code) => *code,
            AppError::DateInputError(_) => BAD_REQUEST,
            AppError::DateError(_) => INTERNAL_SERVER_ERROR,
            AppError::DBError(_) => INTERNAL_SERVER_ERROR,
            AppError::SerdeError(_) => INTERNAL_SERVER_ERROR,
        }
    }
}

} // verus!
