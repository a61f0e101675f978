//! The domain model: statuses, roles, the task aggregate and its history.

pub mod analytics;
pub mod history_order;
pub mod history_validity;
pub mod population;
pub mod repository_error;
pub mod status_history;
pub mod task;
pub mod task_domain_service;
pub mod task_id;
pub mod task_status;
pub mod task_status_service;
pub mod time;
pub mod user_role;

pub use analytics::TaskAnalytics;
pub use population::CompletionSummary;
pub use repository_error::RepositoryError;
pub use status_history::StatusHistory;
pub use task::Task;
pub use task_domain_service::TaskDomainService;
pub use task_id::TaskId;
pub use task_status::TaskStatus;
pub use task_status_service::{TaskStatusService, TransitionDenial};
pub use time::{Duration, Timestamp};
pub use user_role::UserRole;
