//! The decisions of the use cases. Each function takes what the stores
//! returned and says what is to be answered or stored; reading and writing
//! the stores is left to the caller.

use vstd::prelude::*;
use vstd::string::*;
use crate::application::dto::{
    format_duration,
    format_optional_duration,
    formatted_duration,
    formatted_span,
    shows_analytics,
    shows_record,
    CompletionAnalyticsDto,
    CreateTaskRequest,
    PriorityCompletionDto,
    StatusHistoryDto,
    TaskAnalyticsDto,
    TaskDto,
    TaskHistoryDto,
    TaskWithTransitionsDto,
    UpdateTaskRequest,
    UpdateTaskStatusDto,
};
use crate::application::errors::UseCaseError;
use crate::domain::analytics::TaskAnalytics;
use crate::domain::repository_error::{task_not_found, RepositoryError};
use crate::domain::status_history::StatusHistory;
use crate::domain::task::{transition_outcome, Task, TaskView};
use crate::domain::task_domain_service::{
    priority_error,
    task_error,
    update_error,
    TaskDomainService,
};
use crate::domain::task_id::TaskId;
use crate::domain::task_status::TaskStatus;
use crate::domain::task_status_service::{
    denial,
    denial_message,
    valid_transitions,
    TaskStatusService,
};
use crate::domain::population::{
    analytics_views,
    approved_count,
    average_completion_time,
    CompletionSummary,
};
use crate::domain::time::{Duration, Timestamp};
use crate::domain::user_role::UserRole;
use crate::text::{decimal, text_of, trimmed};

verus! {

/// Whether `error` is a validation error with the message `message`.
pub open spec fn is_validation_error(error: UseCaseError, message: Seq<char>) -> bool {
    error matches UseCaseError::ValidationError(text) && text@ == message
}

/// Whether `error` says that no task has the id `id`.
pub open spec fn is_task_not_found(error: UseCaseError, id: i32) -> bool {
    error matches UseCaseError::NotFound(text) && text@
        == RepositoryError::task_not_found_message(id as int)
}

/// The message that says that a task has no analytics.
pub open spec fn no_analytics_message(id: int) -> Seq<char> {
    "No analytics found for task "@ + decimal(id)
}

/// The name of an update request, as characters.
pub open spec fn requested_name(request: UpdateTaskRequest) -> Option<Seq<char>> {
    match request.name {
        Some(name) => Some(name@),
        None => None,
    }
}

/// The task `before` after the update `request` at the instant `now`: a
/// name that is given replaces the name, a priority that is given replaces
/// the priority, and the stamp is renewed where either is given.
pub open spec fn updated(before: TaskView, request: UpdateTaskRequest, now: int) -> TaskView {
    let renamed = match request.name {
        Some(name) => before.renamed(name@, now),
        None => before,
    };
    match request.priority {
        Some(level) => renamed.reprioritized(Some(level), now),
        None => renamed,
    }
}

/// The decisions of the use cases on tasks.
#[derive(Debug, Clone, Copy)]
pub struct TaskUseCases {
    domain_service: TaskDomainService,
    status_service: TaskStatusService,
}

impl TaskUseCases {
    /// The use cases, with the two services that they ask.
    pub fn new() -> (use_cases: TaskUseCases) {
        TaskUseCases {
            domain_service: TaskDomainService::new(),
            status_service: TaskStatusService::new(),
        }
    }

    /// The tasks of a store as they are shown, in their order.
    pub fn get_all_tasks(&self, tasks: Vec<Task>) -> (shown: Vec<TaskDto>)
        ensures
            shown@.len() == tasks@.len(),
            forall|i: int| 0 <= i < tasks@.len() ==> (#[trigger] shown@[i])@ == tasks@[i]@,
    {
        let mut shown: Vec<TaskDto> = Vec::new();
        let ghost all = tasks@;
        for task in it: tasks.into_iter()
            invariant
                it.seq() == all,
                shown@.len() == it.index(),
                forall|j: int| 0 <= j < it.index() ==> (#[trigger] shown@[j])@ == all[j]@,
        {
            shown.push(TaskDto::from(task));
        }
        shown
    }

    /// The task with the id `id`, where the store found one.
    pub fn get_task_by_id(&self, id: i32, found: Option<Task>) -> (shown: Result<
        TaskDto,
        UseCaseError,
    >)
        ensures
            match found {
                Some(task) => shown matches Ok(dto) && dto@ == task@,
                None => shown matches Err(error) && is_task_not_found(error, id),
            },
    {
        match found {
            Some(task) => Ok(TaskDto::from(task)),
            None => Err(UseCaseError::NotFound(task_not_found(id))),
        }
    }

    /// Whether the tasks of the priority `priority` may be asked for: the
    /// priority must be one that a task can have.
    pub fn get_tasks_by_priority(&self, priority: i32) -> (allowed: Result<(), UseCaseError>)
        ensures
            match priority_error(Some(priority)) {
                None => allowed is Ok,
                Some(message) => allowed matches Err(error) && is_validation_error(error, message),
            },
    {
        match self.domain_service.validate_priority(Some(priority)) {
            Ok(()) => Ok(()),
            Err(message) => Err(UseCaseError::ValidationError(message)),
        }
    }

    /// The task to store for the request `request`, stamped with `now`. It
    /// has no id yet: the store assigns one.
    pub fn create_task_at(&self, request: CreateTaskRequest, now: Timestamp) -> (made: Result<
        Task,
        UseCaseError,
    >)
        ensures
            match task_error(request.name@, request.priority) {
                None => made matches Ok(task) && task@.wf() && task@ == (TaskView {
                    id: 0,
                    name: trimmed(request.name@),
                    priority: request.priority,
                    status: TaskStatus::Pending,
                    created_at: now@,
                    updated_at: now@,
                }),
                Some(message) => made matches Err(error) && is_validation_error(error, message),
            },
    {
        match Task::new_with_status(
            TaskId::new(0),
            request.name,
            request.priority,
            TaskStatus::Pending,
            now,
            now,
        ) {
            Ok(task) => Ok(task),
            Err(message) => Err(UseCaseError::ValidationError(message)),
        }
    }

    /// The task to store for the request `request`, stamped with the time of
    /// the clock.
    pub fn create_task(&self, request: CreateTaskRequest) -> (made: Result<Task, UseCaseError>)
        ensures
            match task_error(request.name@, request.priority) {
                None => made matches Ok(task) && task@.wf() && task@ == (TaskView {
                    id: 0,
                    name: trimmed(request.name@),
                    priority: request.priority,
                    status: TaskStatus::Pending,
                    created_at: task@.created_at,
                    updated_at: task@.created_at,
                }),
                Some(message) => made matches Err(error) && is_validation_error(error, message),
            },
    {
        let now = Timestamp::now();
        self.create_task_at(request, now)
    }

    /// The task to store after the update `request` of the task that the
    /// store found under `id`, stamped with `now`. Nothing is changed unless
    /// all that is given is valid.
    pub fn update_task_at(
        &self,
        id: i32,
        found: Option<Task>,
        request: UpdateTaskRequest,
        now: Timestamp,
    ) -> (changed: Result<Task, UseCaseError>)
        ensures
            match found {
                None => changed matches Err(error) && is_task_not_found(error, id),
                Some(task) => match update_error(requested_name(request), request.priority) {
                    Some(message) => changed matches Err(error) && is_validation_error(
                        error,
                        message,
                    ),
                    None => changed matches Ok(after) && after@ == updated(task@, request, now@) && (
                    task@.wf() ==> after@.wf()),
                },
            },
    {
        let mut task = match found {
            Some(task) => task,
            None => {
                return Err(UseCaseError::NotFound(task_not_found(id)));
            },
        };
        let new_name: Option<&str> = match &request.name {
            Some(name) => Some(name.as_str()),
            None => None,
        };
        match self.domain_service.can_update_task(&task, new_name, request.priority) {
            Err(message) => {
                return Err(UseCaseError::ValidationError(message));
            },
            Ok(()) => {},
        }
        if let Some(name) = request.name {
            match task.update_name_at(name, now) {
                Err(message) => {
                    return Err(UseCaseError::ValidationError(message));
                },
                Ok(()) => {},
            }
        }
        if let Some(level) = request.priority {
            match task.update_priority_at(Some(level), now) {
                Err(message) => {
                    return Err(UseCaseError::ValidationError(message));
                },
                Ok(()) => {},
            }
        }
        Ok(task)
    }

    /// As `update_task_at`, stamped with the time of the clock.
    pub fn update_task(&self, id: i32, found: Option<Task>, request: UpdateTaskRequest) -> (changed:
        Result<Task, UseCaseError>)
        ensures
            match found {
                None => changed matches Err(error) && is_task_not_found(error, id),
                Some(task) => match update_error(requested_name(request), request.priority) {
                    Some(message) => changed matches Err(error) && is_validation_error(
                        error,
                        message,
                    ),
                    None => changed matches Ok(after) && after@ == updated(
                        task@,
                        request,
                        after@.updated_at,
                    ) && (task@.wf() ==> after@.wf()),
                },
            },
    {
        let now = Timestamp::now();
        self.update_task_at(id, found, request, now)
    }

    /// Whether the task under `id` may be deleted: it must be there.
    pub fn delete_task(&self, id: i32, found: Option<Task>) -> (allowed: Result<(), UseCaseError>)
        ensures
            match found {
                Some(_) => allowed is Ok,
                None => allowed matches Err(error) && is_task_not_found(error, id),
            },
    {
        match found {
            Some(_) => Ok(()),
            None => Err(UseCaseError::NotFound(task_not_found(id))),
        }
    }

    /// The task to store after the move that `request` asks for, of the
    /// task that the store found under `id`, by an actor in the role `role`
    /// at the instant `now`. The transition policy is asked first, then the
    /// task itself.
    pub fn update_task_status_at(
        &self,
        id: i32,
        found: Option<Task>,
        request: UpdateTaskStatusDto,
        role: UserRole,
        now: Timestamp,
    ) -> (changed: Result<Task, UseCaseError>)
        ensures
            match found {
                None => changed matches Err(error) && is_task_not_found(error, id),
                Some(task) => match denial(
                    task.status,
                    request.status,
                    task@.is_high_priority(),
                    role,
                ) {
                    Some(reason) => changed matches Err(error) && is_validation_error(
                        error,
                        denial_message(reason, task.status, request.status),
                    ),
                    None => match transition_outcome(
                        task.status,
                        task@.is_high_priority(),
                        request.status,
                    ) {
                        Ok(next) => changed matches Ok(after) && after@ == task@.moved(next, now@)
                            && (task@.wf() ==> after@.wf()),
                        Err(message) => changed matches Err(error) && is_validation_error(
                            error,
                            message,
                        ),
                    },
                },
            },
    {
        let mut task = match found {
            Some(task) => task,
            None => {
                return Err(UseCaseError::NotFound(task_not_found(id)));
            },
        };
        let high = task.is_high_priority();
        match self.status_service.can_transition(task.status(), &request.status, high, &role) {
            Err(message) => {
                return Err(UseCaseError::ValidationError(message));
            },
            Ok(()) => {},
        }
        match task.transition_to_at(request.status, now) {
            Err(message) => Err(UseCaseError::ValidationError(message)),
            Ok(()) => Ok(task),
        }
    }

    /// As `update_task_status_at`, stamped with the time of the clock.
    pub fn update_task_status(
        &self,
        id: i32,
        found: Option<Task>,
        request: UpdateTaskStatusDto,
        role: UserRole,
    ) -> (changed: Result<Task, UseCaseError>)
        ensures
            match found {
                None => changed matches Err(error) && is_task_not_found(error, id),
                Some(task) => match denial(
                    task.status,
                    request.status,
                    task@.is_high_priority(),
                    role,
                ) {
                    Some(reason) => changed matches Err(error) && is_validation_error(
                        error,
                        denial_message(reason, task.status, request.status),
                    ),
                    None => match transition_outcome(
                        task.status,
                        task@.is_high_priority(),
                        request.status,
                    ) {
                        Ok(next) => changed matches Ok(after) && after@ == task@.moved(
                            next,
                            after@.updated_at,
                        ) && (task@.wf() ==> after@.wf()),
                        Err(message) => changed matches Err(error) && is_validation_error(
                            error,
                            message,
                        ),
                    },
                },
            },
    {
        let now = Timestamp::now();
        self.update_task_status_at(id, found, request, role, now)
    }

    /// The task that the store found under `id`, with the statuses to which
    /// an actor in the role `role` may move it.
    pub fn get_task_with_transitions(&self, id: i32, found: Option<Task>, role: UserRole) -> (shown:
        Result<TaskWithTransitionsDto, UseCaseError>)
        ensures
            match found {
                None => shown matches Err(error) && is_task_not_found(error, id),
                Some(task) => shown matches Ok(dto) && dto.task@ == task@
                    && dto.valid_transitions@ == valid_transitions(
                    task.status,
                    task@.is_high_priority(),
                    role,
                ),
            },
    {
        let task = match found {
            Some(task) => task,
            None => {
                return Err(UseCaseError::NotFound(task_not_found(id)));
            },
        };
        let valid_transitions = self.status_service.get_valid_transitions(
            task.status(),
            task.is_high_priority(),
            &role,
        );
        Ok(TaskWithTransitionsDto { task: TaskDto::from(task), valid_transitions })
    }

    /// The history of the task `id` as it is shown, with the time in
    /// progress and the count of the transitions from the analytics, or,
    /// where there are none, no time and the count of the records.
    pub fn get_task_history(
        &self,
        id: i32,
        histories: Vec<StatusHistory>,
        analytics: Option<TaskAnalytics>,
    ) -> (shown: TaskHistoryDto)
        ensures
            shown.task_id == id,
            shown.history@.len() == histories@.len(),
            forall|i: int|
                0 <= i < histories@.len() ==> shows_record(
                    #[trigger] shown.history@[i],
                    histories@[i],
                ),
            match analytics {
                Some(found) => text_of(shown.total_time_in_progress) == formatted_span(
                    found@.total_time_in_progress,
                ) && shown.number_of_transitions == found.number_of_transitions,
                None => shown.total_time_in_progress is None && shown.number_of_transitions
                    == histories@.len(),
            },
    {
        let mut history: Vec<StatusHistoryDto> = Vec::new();
        let ghost all = histories@;
        for entry in it: histories.into_iter()
            invariant
                it.seq() == all,
                history@.len() == it.index(),
                forall|j: int| 0 <= j < it.index() ==> shows_record(#[trigger] history@[j], all[j]),
        {
            history.push(StatusHistoryDto::from(entry));
        }
        let (total_time_in_progress, number_of_transitions) = match analytics {
            Some(found) => (
                format_optional_duration(found.total_time_in_progress),
                found.number_of_transitions,
            ),
            None => (None, history.len()),
        };
        TaskHistoryDto { task_id: id, history, total_time_in_progress, number_of_transitions }
    }

    /// The analytics of the task `id` as they are shown, where its history
    /// gave any.
    pub fn get_task_analytics(&self, id: i32, analytics: Option<TaskAnalytics>) -> (shown: Result<
        TaskAnalyticsDto,
        UseCaseError,
    >)
        ensures
            match analytics {
                Some(found) => shown matches Ok(dto) && shows_analytics(dto, found),
                None => shown matches Err(UseCaseError::NotFound(text)) && text@
                    == no_analytics_message(id as int),
            },
    {
        match analytics {
            Some(found) => Ok(TaskAnalyticsDto::from(found)),
            None => {
                let mut message = String::from_str("No analytics found for task ");
                crate::text::append_decimal(&mut message, id as i64);
                Err(UseCaseError::NotFound(message))
            },
        }
    }

    /// The analytics of the tasks completed between `start_date` and
    /// `end_date`: `analytics_list` holds the analytics of each such task,
    /// `priority_times` the average time to completion of each priority.
    /// Each row of a priority carries the count of all the tasks.
    pub fn get_completion_analytics(
        &self,
        start_date: Timestamp,
        end_date: Timestamp,
        analytics_list: Vec<TaskAnalytics>,
        priority_times: Vec<(i32, Duration)>,
    ) -> (shown: CompletionAnalyticsDto)
        ensures
            shown.period_start == start_date,
            shown.period_end == end_date,
            shown.total_completed_tasks == analytics_list@.len(),
            shown.approved_tasks == approved_count(analytics_views(analytics_list@)),
            text_of(shown.average_completion_time) == formatted_span(
                average_completion_time(analytics_views(analytics_list@)),
            ),
            shown.completion_times_by_priority@.len() == priority_times@.len(),
            forall|i: int|
                0 <= i < priority_times@.len() ==> {
                    let row = #[trigger] shown.completion_times_by_priority@[i];
                    &&& row.priority == priority_times@[i].0
                    &&& row.average_time@ == formatted_duration(priority_times@[i].1@)
                    &&& row.task_count == analytics_list@.len()
                },
    {
        let summary = CompletionSummary::of(&analytics_list);
        let total_completed_tasks = analytics_list.len();
        let mut rows: Vec<PriorityCompletionDto> = Vec::new();
        let mut i: usize = 0;
        while i < priority_times.len()
            invariant
                i <= priority_times.len(),
                rows@.len() == i,
                forall|j: int|
                    0 <= j < i ==> {
                        let row = #[trigger] rows@[j];
                        &&& row.priority == priority_times@[j].0
                        &&& row.average_time@ == formatted_duration(priority_times@[j].1@)
                        &&& row.task_count == total_completed_tasks
                    },
            decreases priority_times.len() - i,
        {
            let (priority, average) = priority_times[i];
            rows.push(
                PriorityCompletionDto {
                    priority,
                    average_time: format_duration(average),
                    task_count: total_completed_tasks,
                },
            );
            i = i + 1;
        }
        CompletionAnalyticsDto {
            period_start: start_date,
            period_end: end_date,
            total_completed_tasks,
            average_completion_time: format_optional_duration(summary.average_completion_time),
            completion_times_by_priority: rows,
            approved_tasks: summary.approved_tasks,
        }
    }
}

} // verus!
