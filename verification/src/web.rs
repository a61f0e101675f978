//! What the web layer needs of the library: the failures as it answers
//! them, and the query of the list of tasks.

use vstd::prelude::*;
use vstd::std_specs::convert::FromSpecImpl;
use crate::application::errors::UseCaseError;

verus! {

/// The query of the list of tasks: all of them, or those of one priority.
#[derive(Debug, Clone)]
pub struct TaskQuery {
    pub priority: Option<i32>,
}

/// A failure as the web layer answers it.
#[derive(Debug)]
pub enum WebError {
    /// Answered as a bad request.
    ValidationError(String),
    /// Answered as not found.
    NotFound(String),
    /// Answered as an internal server error.
    InternalError(String),
}

/// The status code of an answer to a request that is not valid.
pub const STATUS_BAD_REQUEST: u16 = 400;

/// The status code of an answer to a request for what is not there.
pub const STATUS_NOT_FOUND: u16 = 404;

/// The status code of an answer to a request that the server failed on.
pub const STATUS_INTERNAL_SERVER_ERROR: u16 = 500;

impl WebError {
    /// The HTTP status code with which the failure is answered.
    pub fn status_code(&self) -> (code: u16)
        ensures
            code == match *self {
                WebError::ValidationError(_) => STATUS_BAD_REQUEST,
                WebError::NotFound(_) => STATUS_NOT_FOUND,
                WebError::InternalError(_) => STATUS_INTERNAL_SERVER_ERROR,
            },
    {
        match self {
            WebError::ValidationError(_) => STATUS_BAD_REQUEST,
            WebError::NotFound(_) => STATUS_NOT_FOUND,
            WebError::InternalError(_) => STATUS_INTERNAL_SERVER_ERROR,
        }
    }

    /// The message of the failure.
    pub fn message(&self) -> (message: &String)
        ensures
            *message == match *self {
                WebError::ValidationError(text) => text,
                WebError::NotFound(text) => text,
                WebError::InternalError(text) => text,
            },
    {
        match self {
            WebError::ValidationError(text) => text,
            WebError::NotFound(text) => text,
            WebError::InternalError(text) => text,
        }
    }
}

impl From<UseCaseError> for WebError {
    fn from(error: UseCaseError) -> (converted: WebError) {
        match error {
            UseCaseError::ValidationError(message) => WebError::ValidationError(message),
            UseCaseError::NotFound(message) => WebError::NotFound(message),
            UseCaseError::RepositoryError(message) => WebError::InternalError(message),
        }
    }
}

impl FromSpecImpl<UseCaseError> for WebError {
    open spec fn obeys_from_spec() -> bool {
        true
    }

    /// The kind is kept, but that a repository error becomes an internal
    /// error; the message is kept as it is.
    open spec fn from_spec(error: UseCaseError) -> WebError {
        match error {
            UseCaseError::ValidationError(message) => WebError::ValidationError(message),
            UseCaseError::NotFound(message) => WebError::NotFound(message),
            UseCaseError::RepositoryError(message) => WebError::InternalError(message),
        }
    }
}

} // verus!
