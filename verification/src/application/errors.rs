//! The failures of a use case.

use vstd::prelude::*;
use vstd::std_specs::convert::FromSpecImpl;
use vstd::string::*;
use crate::domain::repository_error::RepositoryError;

verus! {

/// Why a use case failed. The three kinds are told apart so that each can
/// be answered in its own way: a validation error and a missing task are
/// the fault of the caller, a repository error is not.
#[derive(Debug, Clone)]
pub enum UseCaseError {
    /// A value or a transition was refused. The caller can correct it.
    ValidationError(String),
    /// The task or the record that was asked for is not there.
    NotFound(String),
    /// The store failed.
    RepositoryError(String),
}

impl UseCaseError {
    /// The error in words: its kind, a colon and its message.
    pub open spec fn text(self) -> Seq<char> {
        match self {
            UseCaseError::ValidationError(message) => "Validation error: "@ + message@,
            UseCaseError::NotFound(message) => "Not found: "@ + message@,
            UseCaseError::RepositoryError(message) => "Repository error: "@ + message@,
        }
    }

    /// The error in words.
    pub fn to_string(&self) -> (text: String)
        ensures
            text@ == self.text(),
    {
        match self {
            UseCaseError::ValidationError(message) => String::from_str(
                "Validation error: ",
            ).concat(message.as_str()),
            UseCaseError::NotFound(message) => String::from_str("Not found: ").concat(
                message.as_str(),
            ),
            UseCaseError::RepositoryError(message) => String::from_str(
                "Repository error: ",
            ).concat(message.as_str()),
        }
    }
}

impl From<RepositoryError> for UseCaseError {
    fn from(error: RepositoryError) -> (converted: UseCaseError) {
        match error {
            RepositoryError::NotFound(message) => UseCaseError::NotFound(message),
            RepositoryError::ValidationError(message) => UseCaseError::ValidationError(message),
            RepositoryError::DatabaseError(message) => UseCaseError::RepositoryError(message),
        }
    }
}

impl FromSpecImpl<RepositoryError> for UseCaseError {
    open spec fn obeys_from_spec() -> bool {
        true
    }

    /// The kind is kept, but that a failure of the storage becomes a
    /// repository error; the message is kept as it is.
    open spec fn from_spec(error: RepositoryError) -> UseCaseError {
        match error {
            RepositoryError::NotFound(message) => UseCaseError::NotFound(message),
            RepositoryError::ValidationError(message) => UseCaseError::ValidationError(message),
            RepositoryError::DatabaseError(message) => UseCaseError::RepositoryError(message),
        }
    }
}

} // verus!
