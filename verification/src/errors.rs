//! The failures of the service that works on the rows of the table.

use vstd::prelude::*;
use vstd::string::*;
use crate::web::{STATUS_BAD_REQUEST, STATUS_INTERNAL_SERVER_ERROR, STATUS_NOT_FOUND};

verus! {

/// `sqlx::Error`, a failure that the database driver reports. Nothing is
/// known of its value.
#[verifier::external_type_specification]
#[verifier::external_body]
pub struct ExSqlxError(sqlx::Error);

/// Why the service could not do what it was asked.
#[derive(Debug)]
pub enum AppError {
    /// The database failed. What it reported is kept for the log and is not
    /// shown to the caller.
    Database(sqlx::Error),
    NotFound(String),
    ValidationError(String),
    BadRequest(String),
    InternalServerError(String),
}

impl AppError {
    /// The HTTP status code with which the failure is answered.
    pub open spec fn status(self) -> u16 {
        match self {
            AppError::Database(_) => STATUS_INTERNAL_SERVER_ERROR,
            AppError::NotFound(_) => STATUS_NOT_FOUND,
            AppError::ValidationError(_) => STATUS_BAD_REQUEST,
            AppError::BadRequest(_) => STATUS_BAD_REQUEST,
            AppError::InternalServerError(_) => STATUS_INTERNAL_SERVER_ERROR,
        }
    }

    /// The message with which the failure is answered: its own, but for a
    /// failure of the database, of which the caller learns no detail.
    pub open spec fn shown_message(self) -> Seq<char> {
        match self {
            AppError::Database(_) => "Database error occurred"@,
            AppError::NotFound(message) => message@,
            AppError::ValidationError(message) => message@,
            AppError::BadRequest(message) => message@,
            AppError::InternalServerError(message) => message@,
        }
    }

    /// The status code and the message with which the failure is answered.
    pub fn into_status_and_message(self) -> (answer: (u16, String))
        ensures
            answer.0 == self.status(),
            answer.1@ == self.shown_message(),
    {
        match self {
            AppError::Database(_) => (
                STATUS_INTERNAL_SERVER_ERROR,
                String::from_str("Database error occurred"),
            ),
            AppError::NotFound(message) => (STATUS_NOT_FOUND, message),
            AppError::ValidationError(message) => (STATUS_BAD_REQUEST, message),
            AppError::BadRequest(message) => (STATUS_BAD_REQUEST, message),
            AppError::InternalServerError(message) => (STATUS_INTERNAL_SERVER_ERROR, message),
        }
    }
}

} // verus!
