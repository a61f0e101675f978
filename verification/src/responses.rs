//! The envelope in which answers are given.

use vstd::prelude::*;
use crate::application::dto::TaskDto;

verus! {

/// An answer: the data of a success, or the message of a failure.
#[derive(Debug)]
pub struct ApiResponse<T> {
    pub success: bool,
    pub data: Option<T>,
    pub message: Option<String>,
}

impl<T> ApiResponse<T> {
    /// The answer that carries `data`.
    pub fn success(data: T) -> (response: ApiResponse<T>)
        ensures
            response.success,
            response.data == Some(data),
            response.message is None,
    {
        ApiResponse { success: true, data: Some(data), message: None }
    }

    /// The answer that reports `message`. It carries no data.
    pub fn error(message: String) -> (response: ApiResponse<()>)
        ensures
            !response.success,
            response.data is None,
            response.message == Some(message),
    {
        ApiResponse { success: false, data: None, message: Some(message) }
    }
}

/// The answer to the request for a list of tasks.
#[derive(Debug)]
pub struct TaskListResponse {
    pub tasks: Vec<TaskDto>,
}

/// The answer to the creation of a task.
#[derive(Debug, Clone)]
pub struct TaskCreatedResponse {
    pub task_id: i32,
    pub message: String,
}

} // verus!
