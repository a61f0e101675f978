//! The failures of a store of tasks or of history records.

use vstd::prelude::*;
use vstd::string::*;

verus! {

/// Why a store could not do what it was asked.
#[derive(Debug)]
pub enum RepositoryError {
    /// The task or the record that was asked for is not there.
    NotFound(String),
    /// The storage underneath failed.
    DatabaseError(String),
    /// What was read or was to be written is not valid.
    ValidationError(String),
}

impl RepositoryError {
    /// The error in words: its kind, a colon and its message.
    pub open spec fn text(self) -> Seq<char> {
        match self {
            RepositoryError::NotFound(message) => "Not found: "@ + message@,
            RepositoryError::DatabaseError(message) => "Database error: "@ + message@,
            RepositoryError::ValidationError(message) => "Validation error: "@ + message@,
        }
    }

    /// The message that says that no task has the id `id`.
    pub open spec fn task_not_found_message(id: int) -> Seq<char> {
        "Task with id "@ + crate::text::decimal(id) + " not found"@
    }

    /// The message that says that no history record has the id `id`.
    pub open spec fn history_not_found_message(id: Seq<char>) -> Seq<char> {
        "Status history with id "@ + id + " not found"@
    }

    /// The error in words.
    pub fn to_string(&self) -> (text: String)
        ensures
            text@ == self.text(),
    {
        match self {
            RepositoryError::NotFound(message) => String::from_str("Not found: ").concat(
                message.as_str(),
            ),
            RepositoryError::DatabaseError(message) => String::from_str("Database error: ").concat(
                message.as_str(),
            ),
            RepositoryError::ValidationError(message) => String::from_str(
                "Validation error: ",
            ).concat(message.as_str()),
        }
    }
}

/// The message that says that no task has the id `id`.
pub fn task_not_found(id: i32) -> (message: String)
    ensures
        message@ == RepositoryError::task_not_found_message(id as int),
{
    let mut message = String::from_str("Task with id ");
    crate::text::append_decimal(&mut message, id as i64);
    message.append(" not found");
    message
}

} // verus!
