//! The request-level error of a health check: what went wrong while the
//! platform was probed, as opposed to the platform being unhealthy.

use vstd::prelude::*;

verus! {

#[verifier::external_type_specification]
#[verifier::external_body]
pub struct ExAnyhowError(anyhow::Error);

#[verifier::external_type_specification]
#[verifier::external_body]
pub struct ExTiberiusError(tiberius::error::Error);

/// Why a health check could not be completed.
#[derive(Debug)]
pub enum HealthError {
    /// Anything that is neither a database failure nor a malformed value.
    Unexpected(anyhow::Error),
    /// The data store could not be reached, or a query failed.
    Database(tiberius::error::Error),
    /// A value read from the data store or the host had the wrong shape.
    Conversion(String),
}

/// The status code of an internal server error.
pub const INTERNAL_SERVER_ERROR: u16 = 500;

/// Relies on anyhow::Error::msg: builds an error that carries `message`.
#[verifier::external_body]
pub(crate) fn unexpected_error(message: &str) -> (e: anyhow::Error) {
    anyhow::Error::msg(message.to_string())
}

impl HealthError {
    /// The transport status of a failed check: always an internal error, so
    /// that "could not determine health" stays apart from "unhealthy".
    pub fn status_code(&self) -> (r: u16)
        ensures
            r == INTERNAL_SERVER_ERROR,
    {
        INTERNAL_SERVER_ERROR
    }

    /// The message shown to the client. It never holds the underlying error's
    /// text, which may carry connection details.
    pub fn public_message(&self) -> (r: &'static str)
        ensures
            self is Unexpected ==> r@ == "Something went wrong"@,
            self is Database ==> r@ == "Something went wrong with the database queries"@,
            self is Conversion ==> r@ == "Error when converting a DB value"@,
    {
        match self {
            HealthError::Unexpected(_) => "Something went wrong",
            HealthError::Database(_) => "Something went wrong with the database queries",
            HealthError::Conversion(_) => "Error when converting a DB value",
        }
    }
}

} // verus!
