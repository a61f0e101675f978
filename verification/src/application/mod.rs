//! What the library hands to the layers around it: the values that cross
//! its border and the decisions of the use cases.

pub mod dto;
pub mod errors;
pub mod use_cases;

pub use dto::{
    format_duration,
    CompletionAnalyticsDto,
    CreateTaskRequest,
    PriorityCompletionDto,
    StatusHistoryDto,
    TaskAnalyticsDto,
    TaskDto,
    TaskHistoryDto,
    TaskWithTransitionsDto,
    UpdateTaskRequest,
    UpdateTaskStatusDto,
};
pub use errors::UseCaseError;
pub use use_cases::TaskUseCases;
