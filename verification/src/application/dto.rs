//! The values that cross the border of the library, and how the values of
//! the domain become such values.

use vstd::prelude::*;
use vstd::std_specs::convert::{FromSpecImpl, TryFromSpecImpl};
use vstd::string::*;
use crate::domain::analytics::TaskAnalytics;
use crate::domain::status_history::StatusHistory;
use crate::domain::task::{Task, TaskView};
use crate::domain::task_domain_service::task_error;
use crate::domain::task_id::TaskId;
use crate::domain::task_status::TaskStatus;
use crate::domain::time::{
    div_toward_zero,
    rem_toward_zero,
    Duration,
    Timestamp,
    NANOS_PER_SEC,
};
use crate::text::{append_decimal, decimal, text_of, trimmed};

verus! {

/// A task as it is shown to the outside.
#[derive(Debug, Clone)]
pub struct TaskDto {
    pub id: i32,
    pub name: String,
    pub priority: Option<i32>,
    pub status: TaskStatus,
    pub created_at: Timestamp,
    pub updated_at: Timestamp,
}

impl View for TaskDto {
    type V = TaskView;

    open spec fn view(&self) -> TaskView {
        TaskView {
            id: self.id,
            name: self.name@,
            priority: self.priority,
            status: self.status,
            created_at: self.created_at@,
            updated_at: self.updated_at@,
        }
    }
}

/// The request to create a task.
#[derive(Debug, Clone)]
pub struct CreateTaskRequest {
    pub name: String,
    pub priority: Option<i32>,
}

/// The request to change the name or the priority of a task.
#[derive(Debug, Clone)]
pub struct UpdateTaskRequest {
    pub name: Option<String>,
    pub priority: Option<i32>,
}

/// The request to move a task to another status.
#[derive(Debug, Clone)]
pub struct UpdateTaskStatusDto {
    pub status: TaskStatus,
    pub comment: Option<String>,
}

/// A task with the statuses that it may move to.
#[derive(Debug, Clone)]
pub struct TaskWithTransitionsDto {
    pub task: TaskDto,
    pub valid_transitions: Vec<TaskStatus>,
}

/// A record of the history as it is shown to the outside.
#[derive(Debug, Clone)]
pub struct StatusHistoryDto {
    pub id: String,
    pub task_id: i32,
    pub from_status: Option<TaskStatus>,
    pub to_status: TaskStatus,
    pub changed_at: Timestamp,
    pub changed_by: String,
    pub comment: Option<String>,
    pub user_role: String,
}

/// The history of a task with the first figures of its analytics.
#[derive(Debug, Clone)]
pub struct TaskHistoryDto {
    pub task_id: i32,
    pub history: Vec<StatusHistoryDto>,
    pub total_time_in_progress: Option<String>,
    pub number_of_transitions: usize,
}

/// The analytics of a task, with its durations written out.
#[derive(Debug, Clone)]
pub struct TaskAnalyticsDto {
    pub task_id: i32,
    pub total_time_in_progress: Option<String>,
    pub time_to_completion: Option<String>,
    pub number_of_transitions: usize,
    pub was_approved: bool,
    pub approval_time: Option<String>,
    pub created_at: Timestamp,
    pub completed_at: Option<Timestamp>,
}

/// The average time to completion of the tasks of one priority.
#[derive(Debug, Clone)]
pub struct PriorityCompletionDto {
    pub priority: i32,
    pub average_time: String,
    pub task_count: usize,
}

/// The analytics of the tasks completed in a period. The approval rate is
/// `approved_tasks` out of `total_completed_tasks`.
#[derive(Debug, Clone)]
pub struct CompletionAnalyticsDto {
    pub period_start: Timestamp,
    pub period_end: Timestamp,
    pub total_completed_tasks: usize,
    pub average_completion_time: Option<String>,
    pub completion_times_by_priority: Vec<PriorityCompletionDto>,
    pub approved_tasks: usize,
}

impl From<Task> for TaskDto {
    fn from(task: Task) -> (dto: TaskDto)
        ensures
            dto@ == task@,
    {
        TaskDto {
            id: task.id.value(),
            name: task.name,
            priority: task.priority,
            status: task.status,
            created_at: task.created_at,
            updated_at: task.updated_at,
        }
    }
}

impl FromSpecImpl<Task> for TaskDto {
    open spec fn obeys_from_spec() -> bool {
        true
    }

    open spec fn from_spec(task: Task) -> TaskDto {
        TaskDto {
            id: task.id.0,
            name: task.name,
            priority: task.priority,
            status: task.status,
            created_at: task.created_at,
            updated_at: task.updated_at,
        }
    }
}

impl TryFrom<TaskDto> for Task {
    type Error = String;

    /// The task that `dto` shows, checked as `Task::new_with_status` checks.
    fn try_from(dto: TaskDto) -> (made: Result<Task, String>)
        ensures
            match made {
                Ok(task) => {
                    &&& task_error(dto@.name, dto@.priority) is None
                    &&& task@ == (TaskView { name: trimmed(dto@.name), ..dto@ })
                    &&& task@.wf()
                },
                Err(message) => task_error(dto@.name, dto@.priority) == Some(message@),
            },
    {
        Task::new_with_status(
            TaskId::new(dto.id),
            dto.name,
            dto.priority,
            dto.status,
            dto.created_at,
            dto.updated_at,
        )
    }
}

impl TryFromSpecImpl<TaskDto> for Task {
    open spec fn obeys_try_from_spec() -> bool {
        false
    }

    open spec fn try_from_spec(dto: TaskDto) -> Result<Task, String> {
        arbitrary()
    }
}

/// A duration written out in days, hours, minutes and seconds. The whole
/// seconds of the duration are split into the four parts; the parts from the
/// first that is above zero on are written, each with its unit, and the
/// seconds are always written.
pub open spec fn formatted_duration(nanos: int) -> Seq<char> {
    let total_seconds = div_toward_zero(nanos, NANOS_PER_SEC as int);
    let days = div_toward_zero(total_seconds, 86400);
    let hours = div_toward_zero(rem_toward_zero(total_seconds, 86400), 3600);
    let minutes = div_toward_zero(rem_toward_zero(total_seconds, 3600), 60);
    let seconds = rem_toward_zero(total_seconds, 60);
    if days > 0 {
        decimal(days) + "d "@ + decimal(hours) + "h "@ + decimal(minutes) + "m "@ + decimal(seconds)
            + "s"@
    } else if hours > 0 {
        decimal(hours) + "h "@ + decimal(minutes) + "m "@ + decimal(seconds) + "s"@
    } else if minutes > 0 {
        decimal(minutes) + "m "@ + decimal(seconds) + "s"@
    } else {
        decimal(seconds) + "s"@
    }
}

/// An optional duration written out.
pub open spec fn formatted_span(span: Option<int>) -> Option<Seq<char>> {
    match span {
        Some(nanos) => Some(formatted_duration(nanos)),
        None => None,
    }
}

/// Whether `dto` shows the record `history`: all as it is, the role by its
/// name.
pub open spec fn shows_record(dto: StatusHistoryDto, history: StatusHistory) -> bool {
    &&& dto.id == history.id
    &&& dto.task_id == history.task_id
    &&& dto.from_status == history.from_status
    &&& dto.to_status == history.to_status
    &&& dto.changed_at == history.changed_at
    &&& dto.changed_by == history.changed_by
    &&& dto.comment == history.comment
    &&& dto.user_role@ == history.user_role.name()
}

/// Whether `dto` shows the analytics `analytics`: all as they are, the
/// durations written out.
pub open spec fn shows_analytics(dto: TaskAnalyticsDto, analytics: TaskAnalytics) -> bool {
    &&& dto.task_id == analytics.task_id
    &&& text_of(dto.total_time_in_progress) == formatted_span(analytics@.total_time_in_progress)
    &&& text_of(dto.time_to_completion) == formatted_span(analytics@.time_to_completion)
    &&& dto.number_of_transitions == analytics.number_of_transitions
    &&& dto.was_approved == analytics.was_approved
    &&& text_of(dto.approval_time) == formatted_span(analytics@.approval_time)
    &&& dto.created_at == analytics.created_at
    &&& dto.completed_at == analytics.completed_at
}

/// Writes a duration out in days, hours, minutes and seconds.
pub fn format_duration(duration: Duration) -> (text: String)
    ensures
        text@ == formatted_duration(duration@),
{
    let total_seconds: i64 = duration.num_seconds();
    let days: i64 = total_seconds / 86400;
    let hours: i64 = (total_seconds % 86400) / 3600;
    let minutes: i64 = (total_seconds % 3600) / 60;
    let seconds: i64 = total_seconds % 60;
    let mut text = String::new();
    if days > 0 {
        append_decimal(&mut text, days);
        text.append("d ");
    }
    if days > 0 || hours > 0 {
        append_decimal(&mut text, hours);
        text.append("h ");
    }
    if days > 0 || hours > 0 || minutes > 0 {
        append_decimal(&mut text, minutes);
        text.append("m ");
    }
    append_decimal(&mut text, seconds);
    text.append("s");
    assert(text@ =~= formatted_duration(duration@));
    text
}

/// Writes an optional duration out.
pub fn format_optional_duration(duration: Option<Duration>) -> (text: Option<String>)
    ensures
        text_of(text) == formatted_span(crate::domain::analytics::span(duration)),
{
    match duration {
        Some(d) => Some(format_duration(d)),
        None => None,
    }
}

impl From<StatusHistory> for StatusHistoryDto {
    fn from(history: StatusHistory) -> (dto: StatusHistoryDto)
        ensures
            shows_record(dto, history),
    {
        StatusHistoryDto {
            id: history.id,
            task_id: history.task_id,
            from_status: history.from_status,
            to_status: history.to_status,
            changed_at: history.changed_at,
            changed_by: history.changed_by,
            comment: history.comment,
            user_role: String::from_str(history.user_role.as_str()),
        }
    }
}

impl FromSpecImpl<StatusHistory> for StatusHistoryDto {
    open spec fn obeys_from_spec() -> bool {
        false
    }

    open spec fn from_spec(history: StatusHistory) -> StatusHistoryDto {
        arbitrary()
    }
}

impl From<TaskAnalytics> for TaskAnalyticsDto {
    fn from(analytics: TaskAnalytics) -> (dto: TaskAnalyticsDto)
        ensures
            shows_analytics(dto, analytics),
    {
        TaskAnalyticsDto {
            task_id: analytics.task_id,
            total_time_in_progress: format_optional_duration(analytics.total_time_in_progress),
            time_to_completion: format_optional_duration(analytics.time_to_completion),
            number_of_transitions: analytics.number_of_transitions,
            was_approved: analytics.was_approved,
            approval_time: format_optional_duration(analytics.approval_time),
            created_at: analytics.created_at,
            completed_at: analytics.completed_at,
        }
    }
}

impl FromSpecImpl<TaskAnalytics> for TaskAnalyticsDto {
    open spec fn obeys_from_spec() -> bool {
        false
    }

    open spec fn from_spec(analytics: TaskAnalytics) -> TaskAnalyticsDto {
        arbitrary()
    }
}

} // verus!
