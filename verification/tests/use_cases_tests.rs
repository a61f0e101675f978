use task_workflow::application::dto::{
    CreateTaskRequest, UpdateTaskRequest, UpdateTaskStatusDto,
};
use task_workflow::application::{TaskUseCases, UseCaseError};
use task_workflow::domain::{
    Duration, StatusHistory, Task, TaskAnalytics, TaskId, TaskStatus, Timestamp, UserRole,
};

fn task_in(id: i32, status: TaskStatus, priority: Option<i32>) -> Task {
    Task::new_with_status(
        TaskId::new(id),
        "Stored".to_string(),
        priority,
        status,
        Timestamp::new(1_000, 0),
        Timestamp::new(2_000, 0),
    )
    .unwrap()
}

fn validation(error: UseCaseError) -> String {
    match error {
        UseCaseError::ValidationError(message) => message,
        other => panic!("expected a validation error, got {:?}", other),
    }
}

fn not_found(error: UseCaseError) -> String {
    match error {
        UseCaseError::NotFound(message) => message,
        other => panic!("expected a not-found error, got {:?}", other),
    }
}

#[test]
fn tasks_are_shown_in_their_order() {
    let use_cases = TaskUseCases::new();
    let shown = use_cases.get_all_tasks(vec![
        task_in(1, TaskStatus::Pending, Some(5)),
        task_in(2, TaskStatus::Completed, None),
    ]);
    assert_eq!(shown.len(), 2);
    assert_eq!(shown[0].id, 1);
    assert_eq!(shown[0].priority, Some(5));
    assert_eq!(shown[1].id, 2);
    assert_eq!(shown[1].status, TaskStatus::Completed);
    assert!(use_cases.get_all_tasks(vec![]).is_empty());
}

#[test]
fn missing_task_is_not_found() {
    let use_cases = TaskUseCases::new();
    assert_eq!(
        not_found(use_cases.get_task_by_id(42, None).unwrap_err()),
        "Task with id 42 not found"
    );
    assert_eq!(
        not_found(use_cases.delete_task(-3, None).unwrap_err()),
        "Task with id -3 not found"
    );
    assert!(use_cases
        .delete_task(1, Some(task_in(1, TaskStatus::Pending, None)))
        .is_ok());
    let shown = use_cases
        .get_task_by_id(1, Some(task_in(1, TaskStatus::InProgress, Some(2))))
        .unwrap();
    assert_eq!(shown.id, 1);
    assert_eq!(shown.name, "Stored");
    assert_eq!(shown.status, TaskStatus::InProgress);
    assert_eq!(shown.created_at, Timestamp::new(1_000, 0));
    assert_eq!(shown.updated_at, Timestamp::new(2_000, 0));
}

#[test]
fn priority_filter_is_validated() {
    let use_cases = TaskUseCases::new();
    assert!(use_cases.get_tasks_by_priority(1).is_ok());
    assert!(use_cases.get_tasks_by_priority(10).is_ok());
    assert_eq!(
        validation(use_cases.get_tasks_by_priority(0).unwrap_err()),
        "Priority must be between 1 and 10"
    );
    assert_eq!(
        validation(use_cases.get_tasks_by_priority(11).unwrap_err()),
        "Priority must be between 1 and 10"
    );
}

#[test]
fn created_task_has_no_id_yet() {
    let use_cases = TaskUseCases::new();
    let now = Timestamp::new(9_000, 1);
    let task = use_cases
        .create_task_at(
            CreateTaskRequest { name: " New ".to_string(), priority: Some(5) },
            now,
        )
        .unwrap();
    assert_eq!(task.id.value(), 0);
    assert_eq!(task.name, "New");
    assert_eq!(task.priority, Some(5));
    assert_eq!(task.status, TaskStatus::Pending);
    assert_eq!(task.created_at, now);
    assert_eq!(task.updated_at, now);

    let stamped = use_cases
        .create_task(CreateTaskRequest { name: "New".to_string(), priority: None })
        .unwrap();
    assert_eq!(stamped.created_at, stamped.updated_at);
}

#[test]
fn create_task_reports_the_first_fault() {
    let use_cases = TaskUseCases::new();
    assert_eq!(
        validation(
            use_cases
                .create_task(CreateTaskRequest { name: "".to_string(), priority: Some(0) })
                .unwrap_err()
        ),
        "Task name cannot be empty"
    );
    assert_eq!(
        validation(
            use_cases
                .create_task(CreateTaskRequest { name: "a".repeat(256), priority: Some(5) })
                .unwrap_err()
        ),
        "Task name cannot exceed 255 characters"
    );
    assert_eq!(
        validation(
            use_cases
                .create_task(CreateTaskRequest { name: "ok".to_string(), priority: Some(11) })
                .unwrap_err()
        ),
        "Priority must be between 1 and 10"
    );
}

#[test]
fn update_changes_what_is_given() {
    let use_cases = TaskUseCases::new();
    let now = Timestamp::new(9_000, 0);
    let stored = || Some(task_in(1, TaskStatus::InProgress, Some(5)));

    let both = use_cases
        .update_task_at(
            1,
            stored(),
            UpdateTaskRequest { name: Some(" Changed ".to_string()), priority: Some(8) },
            now,
        )
        .unwrap();
    assert_eq!(both.name, "Changed");
    assert_eq!(both.priority, Some(8));
    assert_eq!(both.status, TaskStatus::InProgress);
    assert_eq!(both.updated_at, now);
    assert_eq!(both.created_at, Timestamp::new(1_000, 0));

    let nothing = use_cases
        .update_task_at(1, stored(), UpdateTaskRequest { name: None, priority: None }, now)
        .unwrap();
    assert_eq!(nothing, task_in(1, TaskStatus::InProgress, Some(5)));

    let name_only = use_cases
        .update_task(1, stored(), UpdateTaskRequest { name: Some("N".to_string()), priority: None })
        .unwrap();
    assert_eq!(name_only.name, "N");
    assert_eq!(name_only.priority, Some(5));
}

#[test]
fn update_is_refused_as_a_whole() {
    let use_cases = TaskUseCases::new();
    let now = Timestamp::new(9_000, 0);
    assert_eq!(
        not_found(
            use_cases
                .update_task_at(
                    7,
                    None,
                    UpdateTaskRequest { name: Some("".to_string()), priority: Some(0) },
                    now
                )
                .unwrap_err()
        ),
        "Task with id 7 not found"
    );
    assert_eq!(
        validation(
            use_cases
                .update_task_at(
                    1,
                    Some(task_in(1, TaskStatus::Pending, None)),
                    UpdateTaskRequest { name: Some("fine".to_string()), priority: Some(0) },
                    now
                )
                .unwrap_err()
        ),
        "Priority must be between 1 and 10"
    );
    assert_eq!(
        validation(
            use_cases
                .update_task_at(
                    1,
                    Some(task_in(1, TaskStatus::Pending, None)),
                    UpdateTaskRequest { name: Some("  ".to_string()), priority: Some(0) },
                    now
                )
                .unwrap_err()
        ),
        "Task name cannot be empty"
    );
}

fn move_to(status: TaskStatus) -> UpdateTaskStatusDto {
    UpdateTaskStatusDto { status, comment: None }
}

#[test]
fn status_update_asks_the_policy_first() {
    let use_cases = TaskUseCases::new();
    let now = Timestamp::new(9_000, 0);

    let started = use_cases
        .update_task_status_at(
            1,
            Some(task_in(1, TaskStatus::Pending, Some(5))),
            move_to(TaskStatus::InProgress),
            UserRole::User,
            now,
        )
        .unwrap();
    assert_eq!(started.status, TaskStatus::InProgress);
    assert_eq!(started.updated_at, now);

    assert_eq!(
        validation(
            use_cases
                .update_task_status_at(
                    1,
                    Some(task_in(1, TaskStatus::InProgress, Some(1))),
                    move_to(TaskStatus::Completed),
                    UserRole::Admin,
                    now,
                )
                .unwrap_err()
        ),
        "High-priority tasks must go through review before completion"
    );
    assert_eq!(
        validation(
            use_cases
                .update_task_status_at(
                    1,
                    Some(task_in(1, TaskStatus::PendingReview, Some(1))),
                    move_to(TaskStatus::Completed),
                    UserRole::User,
                    now,
                )
                .unwrap_err()
        ),
        "Only managers can approve task completion"
    );
    assert_eq!(
        validation(
            use_cases
                .update_task_status_at(
                    1,
                    Some(task_in(1, TaskStatus::Completed, Some(1))),
                    move_to(TaskStatus::Pending),
                    UserRole::Admin,
                    now,
                )
                .unwrap_err()
        ),
        "Invalid transition from Completed to Pending"
    );
    assert_eq!(
        not_found(
            use_cases
                .update_task_status(9, None, move_to(TaskStatus::Cancelled), UserRole::Admin)
                .unwrap_err()
        ),
        "Task with id 9 not found"
    );
}

#[test]
fn status_update_then_asks_the_task() {
    let use_cases = TaskUseCases::new();
    let now = Timestamp::new(9_000, 0);
    // The policy permits the move to review; the task refuses it, not being high-priority.
    assert_eq!(
        validation(
            use_cases
                .update_task_status_at(
                    1,
                    Some(task_in(1, TaskStatus::InProgress, Some(7))),
                    move_to(TaskStatus::PendingReview),
                    UserRole::User,
                    now,
                )
                .unwrap_err()
        ),
        "Only high-priority tasks can transition to PendingReview"
    );
    let approved = use_cases
        .update_task_status(
            1,
            Some(task_in(1, TaskStatus::PendingReview, Some(2))),
            move_to(TaskStatus::Completed),
            UserRole::Manager,
        )
        .unwrap();
    assert_eq!(approved.status, TaskStatus::Completed);
}

#[test]
fn task_is_shown_with_its_valid_transitions() {
    let use_cases = TaskUseCases::new();
    let shown = use_cases
        .get_task_with_transitions(
            1,
            Some(task_in(1, TaskStatus::InProgress, Some(2))),
            UserRole::User,
        )
        .unwrap();
    assert_eq!(shown.task.id, 1);
    assert_eq!(
        shown.valid_transitions,
        vec![TaskStatus::PendingReview, TaskStatus::Cancelled]
    );
    assert_eq!(
        not_found(
            use_cases
                .get_task_with_transitions(5, None, UserRole::User)
                .unwrap_err()
        ),
        "Task with id 5 not found"
    );
}

fn record(from: Option<TaskStatus>, to: TaskStatus, at: i64) -> StatusHistory {
    StatusHistory::new(
        format!("id-{}", at),
        3,
        from,
        to,
        Timestamp::new(at, 0),
        "carol".to_string(),
        Some("note".to_string()),
        UserRole::Admin,
    )
}

#[test]
fn history_is_shown_with_figures_from_the_analytics() {
    let use_cases = TaskUseCases::new();
    let records = vec![
        record(None, TaskStatus::Pending, 0),
        record(Some(TaskStatus::Pending), TaskStatus::InProgress, 60),
        record(Some(TaskStatus::InProgress), TaskStatus::Completed, 3_725),
    ];
    let analytics = TaskAnalytics::from_history(records.clone());
    let shown = use_cases.get_task_history(3, records, analytics);
    assert_eq!(shown.task_id, 3);
    assert_eq!(shown.history.len(), 3);
    assert_eq!(shown.history[1].id, "id-60");
    assert_eq!(shown.history[1].from_status, Some(TaskStatus::Pending));
    assert_eq!(shown.history[1].to_status, TaskStatus::InProgress);
    assert_eq!(shown.history[1].changed_by, "carol");
    assert_eq!(shown.history[1].comment, Some("note".to_string()));
    assert_eq!(shown.history[1].user_role, "Admin");
    assert_eq!(shown.total_time_in_progress, Some("1h 1m 5s".to_string()));
    assert_eq!(shown.number_of_transitions, 3);

    let without = use_cases.get_task_history(3, vec![record(None, TaskStatus::Pending, 0)], None);
    assert_eq!(without.total_time_in_progress, None);
    assert_eq!(without.number_of_transitions, 1);
}

#[test]
fn analytics_are_shown_with_durations_written_out() {
    let use_cases = TaskUseCases::new();
    let records = vec![
        record(None, TaskStatus::Pending, 0),
        record(Some(TaskStatus::Pending), TaskStatus::InProgress, 10),
        record(Some(TaskStatus::InProgress), TaskStatus::PendingReview, 100),
        record(Some(TaskStatus::PendingReview), TaskStatus::Completed, 90_000),
    ];
    let shown = use_cases
        .get_task_analytics(3, TaskAnalytics::from_history(records))
        .unwrap();
    assert_eq!(shown.task_id, 3);
    assert_eq!(shown.total_time_in_progress, Some("1m 30s".to_string()));
    assert_eq!(shown.time_to_completion, Some("1d 1h 0m 0s".to_string()));
    assert_eq!(shown.approval_time, Some("1d 0h 58m 20s".to_string()));
    assert!(shown.was_approved);
    assert_eq!(shown.number_of_transitions, 4);
    assert_eq!(shown.created_at, Timestamp::new(0, 0));
    assert_eq!(shown.completed_at, Some(Timestamp::new(90_000, 0)));

    assert_eq!(
        not_found(use_cases.get_task_analytics(8, None).unwrap_err()),
        "No analytics found for task 8"
    );
}

fn completed_in(seconds: i64, was_approved: bool) -> TaskAnalytics {
    TaskAnalytics {
        task_id: 1,
        total_time_in_progress: None,
        time_to_completion: Some(Duration::seconds(seconds)),
        number_of_transitions: 3,
        was_approved,
        approval_time: None,
        created_at: Timestamp::new(0, 0),
        completed_at: Some(Timestamp::new(seconds, 0)),
    }
}

#[test]
fn completion_analytics_of_a_period() {
    let use_cases = TaskUseCases::new();
    let start = Timestamp::new(0, 0);
    let end = Timestamp::new(1_000_000, 0);
    let shown = use_cases.get_completion_analytics(
        start,
        end,
        vec![completed_in(60, true), completed_in(120, false), completed_in(3_600, true), completed_in(7_200, true)],
        vec![(1, Duration::seconds(90)), (5, Duration::seconds(86_400))],
    );
    assert_eq!(shown.period_start, start);
    assert_eq!(shown.period_end, end);
    assert_eq!(shown.total_completed_tasks, 4);
    assert_eq!(shown.approved_tasks, 3);
    assert_eq!(shown.average_completion_time, Some("45m 45s".to_string()));
    assert_eq!(shown.completion_times_by_priority.len(), 2);
    assert_eq!(shown.completion_times_by_priority[0].priority, 1);
    assert_eq!(shown.completion_times_by_priority[0].average_time, "1m 30s");
    assert_eq!(shown.completion_times_by_priority[0].task_count, 4);
    assert_eq!(shown.completion_times_by_priority[1].priority, 5);
    assert_eq!(shown.completion_times_by_priority[1].average_time, "1d 0h 0m 0s");
    assert_eq!(shown.completion_times_by_priority[1].task_count, 4);
}

#[test]
fn completion_analytics_of_an_empty_period() {
    let use_cases = TaskUseCases::new();
    let shown = use_cases.get_completion_analytics(
        Timestamp::new(0, 0),
        Timestamp::new(1, 0),
        vec![],
        vec![],
    );
    assert_eq!(shown.total_completed_tasks, 0);
    assert_eq!(shown.approved_tasks, 0);
    assert_eq!(shown.average_completion_time, None);
    assert!(shown.completion_times_by_priority.is_empty());
}

#[test]
fn use_case_error_in_words() {
    assert_eq!(
        UseCaseError::RepositoryError("down".to_string()).to_string(),
        "Repository error: down"
    );
}
