//! The decisions of the service that works on the rows of the table:
//! whether what was read may be returned, and whether what is asked may be
//! written. Reading and writing the table is left to the caller.

use vstd::prelude::*;
use vstd::string::*;
use crate::domain::repository_error::{task_not_found, RepositoryError};
use crate::errors::AppError;
use crate::models::{
    first_row_error,
    row_error,
    update_row_error,
    validate_rows,
    CreateTaskRequest,
    Task,
    UpdateTaskRequest,
};

verus! {

/// Whether `error` is a validation error with the message `message`.
pub open spec fn is_invalid(error: AppError, message: Seq<char>) -> bool {
    error matches AppError::ValidationError(text) && text@ == message
}

/// Whether `error` says that no task has the id `task_id`.
pub open spec fn is_missing(error: AppError, task_id: i32) -> bool {
    error matches AppError::NotFound(text) && text@ == RepositoryError::task_not_found_message(
        task_id as int,
    )
}

/// The decisions of the service on the rows of the table.
#[derive(Debug, Clone, Copy)]
pub struct TaskService;

impl TaskService {
    /// The service. It holds nothing.
    pub fn new() -> (service: TaskService) {
        TaskService
    }

    /// The rows that were read, where each of them is valid; the first
    /// fault, where one is not.
    pub fn get_all_tasks(&self, rows: Vec<Task>) -> (checked: Result<Vec<Task>, AppError>)
        ensures
            match first_row_error(rows@) {
                None => checked == Ok::<Vec<Task>, AppError>(rows),
                Some(message) => checked matches Err(error) && is_invalid(error, message),
            },
    {
        match validate_rows(&rows) {
            Ok(()) => Ok(rows),
            Err(message) => Err(AppError::ValidationError(message)),
        }
    }

    /// As `get_all_tasks`, for the rows of one priority.
    pub fn get_tasks_by_priority(&self, rows: Vec<Task>) -> (checked: Result<Vec<Task>, AppError>)
        ensures
            match first_row_error(rows@) {
                None => checked == Ok::<Vec<Task>, AppError>(rows),
                Some(message) => checked matches Err(error) && is_invalid(error, message),
            },
    {
        self.get_all_tasks(rows)
    }

    /// The row that was read under `task_id`, where there is one and it is
    /// valid.
    pub fn get_task_by_id(&self, task_id: i32, found: Option<Task>) -> (checked: Result<
        Task,
        AppError,
    >)
        ensures
            match found {
                None => checked matches Err(error) && is_missing(error, task_id),
                Some(row) => match row_error(row.name@, row.priority) {
                    None => checked == Ok::<Task, AppError>(row),
                    Some(message) => checked matches Err(error) && is_invalid(error, message),
                },
            },
    {
        match found {
            Some(row) => match row.validate() {
                Ok(()) => Ok(row),
                Err(message) => Err(AppError::ValidationError(message)),
            },
            None => Err(AppError::NotFound(task_not_found(task_id))),
        }
    }

    /// Whether the row that `request` asks for may be inserted.
    pub fn create_task(&self, request: &CreateTaskRequest) -> (allowed: Result<(), AppError>)
        ensures
            match row_error(request.name@, request.priority) {
                None => allowed is Ok,
                Some(message) => allowed matches Err(error) && is_invalid(error, message),
            },
    {
        match request.validate() {
            Ok(()) => Ok(()),
            Err(message) => Err(AppError::ValidationError(message)),
        }
    }

    /// Whether the row under `task_id` may be updated as `request` asks:
    /// the row must be there, which `exists` says, and what the request
    /// gives must be valid.
    pub fn update_task(&self, task_id: i32, exists: bool, request: &UpdateTaskRequest) -> (allowed:
        Result<(), AppError>)
        ensures
            !exists ==> (allowed matches Err(error) && is_missing(error, task_id)),
            exists ==> match update_row_error(*request) {
                None => allowed is Ok,
                Some(message) => allowed matches Err(error) && is_invalid(error, message),
            },
    {
        if !exists {
            return Err(AppError::NotFound(task_not_found(task_id)));
        }
        match request.validate() {
            Ok(()) => Ok(()),
            Err(message) => Err(AppError::ValidationError(message)),
        }
    }

    /// The outcome of an update or a deletion of the row under `task_id`
    /// that changed `rows_affected` rows: where it changed none, the row is
    /// not there.
    pub fn delete_task(&self, task_id: i32, rows_affected: u64) -> (outcome: Result<(), AppError>)
        ensures
            rows_affected == 0 ==> (outcome matches Err(error) && is_missing(error, task_id)),
            rows_affected != 0 ==> (outcome is Ok),
    {
        if rows_affected == 0 {
            return Err(AppError::NotFound(task_not_found(task_id)));
        }
        Ok(())
    }
}

} // verus!
