use task_workflow::domain::{
    Duration, StatusHistory, TaskAnalytics, TaskStatus, Timestamp, UserRole,
};

const T0: i64 = 1_700_000_000;

fn at(seconds_after_start: i64) -> Timestamp {
    Timestamp::new(T0 + seconds_after_start, 0)
}

fn entry(
    task_id: i32,
    from: Option<TaskStatus>,
    to: TaskStatus,
    seconds_after_start: i64,
) -> StatusHistory {
    StatusHistory::new(
        format!("entry-{}", seconds_after_start),
        task_id,
        from,
        to,
        at(seconds_after_start),
        "alice".to_string(),
        None,
        UserRole::User,
    )
}

fn creation(task_id: i32) -> StatusHistory {
    entry(task_id, None, TaskStatus::Pending, 0)
}

#[test]
fn empty_history_has_no_analytics() {
    assert!(TaskAnalytics::from_history(vec![]).is_none());
}

#[test]
fn history_without_creation_entry_has_no_analytics() {
    let history = vec![
        entry(1, Some(TaskStatus::Pending), TaskStatus::InProgress, 10),
        entry(1, Some(TaskStatus::InProgress), TaskStatus::Completed, 20),
    ];
    assert!(TaskAnalytics::from_history(history).is_none());
}

#[test]
fn history_out_of_order_has_no_analytics() {
    let history = vec![
        creation(1),
        entry(1, Some(TaskStatus::Pending), TaskStatus::InProgress, 50),
        entry(1, Some(TaskStatus::InProgress), TaskStatus::Completed, 20),
    ];
    assert!(!TaskAnalytics::is_chronological(&history));
    assert!(TaskAnalytics::from_history(history).is_none());
}

#[test]
fn creation_only_history() {
    let analytics = TaskAnalytics::from_history(vec![creation(7)]).unwrap();
    assert_eq!(analytics.task_id, 7);
    assert_eq!(analytics.number_of_transitions, 1);
    assert_eq!(analytics.total_time_in_progress, None);
    assert_eq!(analytics.time_to_completion, None);
    assert_eq!(analytics.approval_time, None);
    assert!(!analytics.was_approved);
    assert_eq!(analytics.created_at, at(0));
    assert_eq!(analytics.completed_at, None);
}

#[test]
fn new_task_round_trip_through_creation_only_history() {
    let task = task_workflow::domain::Task::new(
        task_workflow::domain::TaskId::new(3),
        "Fresh".to_string(),
        None,
    )
    .unwrap();
    let history = vec![StatusHistory::new(
        "first".to_string(),
        task.id.value(),
        None,
        *task.status(),
        task.created_at,
        "system".to_string(),
        None,
        UserRole::User,
    )];
    let analytics = TaskAnalytics::from_history(history).unwrap();
    assert_eq!(analytics.number_of_transitions, 1);
    assert_eq!(analytics.total_time_in_progress, None);
    assert_eq!(analytics.time_to_completion, None);
    assert_eq!(analytics.approval_time, None);
    assert!(!analytics.was_approved);
    assert_eq!(analytics.created_at, task.created_at);
}

#[test]
fn scenario_direct_completion() {
    let history = vec![
        creation(1),
        entry(1, Some(TaskStatus::Pending), TaskStatus::InProgress, 100),
        entry(1, Some(TaskStatus::InProgress), TaskStatus::Completed, 400),
    ];
    let analytics = TaskAnalytics::from_history(history).unwrap();
    assert_eq!(analytics.total_time_in_progress, Some(Duration::seconds(300)));
    assert_eq!(analytics.time_to_completion, Some(Duration::seconds(400)));
    assert!(!analytics.was_approved);
    assert_eq!(analytics.approval_time, None);
    assert_eq!(analytics.number_of_transitions, 3);
    assert_eq!(analytics.completed_at, Some(at(400)));
}

#[test]
fn scenario_reviewed_and_approved() {
    let history = vec![
        creation(1),
        entry(1, Some(TaskStatus::Pending), TaskStatus::InProgress, 100),
        entry(1, Some(TaskStatus::InProgress), TaskStatus::PendingReview, 250),
        entry(1, Some(TaskStatus::PendingReview), TaskStatus::Completed, 1000),
    ];
    let analytics = TaskAnalytics::from_history(history).unwrap();
    assert!(analytics.was_approved);
    assert_eq!(analytics.approval_time, Some(Duration::seconds(750)));
    assert_eq!(analytics.total_time_in_progress, Some(Duration::seconds(150)));
    assert_eq!(analytics.time_to_completion, Some(Duration::seconds(1000)));
    assert_eq!(analytics.number_of_transitions, 4);
    assert_eq!(analytics.completed_at, Some(at(1000)));
}

#[test]
fn scenario_cancelled() {
    let history = vec![
        creation(1),
        entry(1, Some(TaskStatus::Pending), TaskStatus::InProgress, 100),
        entry(1, Some(TaskStatus::InProgress), TaskStatus::Cancelled, 160),
    ];
    let analytics = TaskAnalytics::from_history(history).unwrap();
    assert_eq!(analytics.completed_at, Some(at(160)));
    assert_eq!(analytics.time_to_completion, None);
    assert!(!analytics.was_approved);
    assert_eq!(analytics.total_time_in_progress, None);
    assert_eq!(analytics.number_of_transitions, 3);
}

#[test]
fn entries_after_terminal_entry_only_count() {
    let history = vec![
        creation(1),
        entry(1, Some(TaskStatus::Pending), TaskStatus::InProgress, 10),
        entry(1, Some(TaskStatus::InProgress), TaskStatus::Completed, 30),
        entry(1, Some(TaskStatus::Completed), TaskStatus::InProgress, 40),
        entry(1, Some(TaskStatus::InProgress), TaskStatus::PendingReview, 90),
        entry(1, Some(TaskStatus::PendingReview), TaskStatus::Completed, 100),
    ];
    let analytics = TaskAnalytics::from_history(history).unwrap();
    assert_eq!(analytics.number_of_transitions, 6);
    assert_eq!(analytics.total_time_in_progress, Some(Duration::seconds(20)));
    assert_eq!(analytics.time_to_completion, Some(Duration::seconds(30)));
    assert_eq!(analytics.completed_at, Some(at(30)));
    assert!(!analytics.was_approved);
    assert_eq!(analytics.approval_time, None);
}

#[test]
fn re_entry_into_progress_adds_intervals() {
    let history = vec![
        creation(1),
        entry(1, Some(TaskStatus::Pending), TaskStatus::InProgress, 10),
        entry(1, Some(TaskStatus::InProgress), TaskStatus::PendingReview, 40),
        entry(1, Some(TaskStatus::PendingReview), TaskStatus::InProgress, 100),
        entry(1, Some(TaskStatus::InProgress), TaskStatus::PendingReview, 105),
        entry(1, Some(TaskStatus::PendingReview), TaskStatus::Completed, 200),
    ];
    let analytics = TaskAnalytics::from_history(history).unwrap();
    assert_eq!(analytics.total_time_in_progress, Some(Duration::seconds(35)));
    assert_eq!(analytics.approval_time, Some(Duration::seconds(95)));
    assert_eq!(analytics.time_to_completion, Some(Duration::seconds(200)));
    assert!(analytics.was_approved);
}

#[test]
fn later_start_replaces_open_interval() {
    let history = vec![
        creation(1),
        entry(1, Some(TaskStatus::Pending), TaskStatus::InProgress, 10),
        entry(1, Some(TaskStatus::InProgress), TaskStatus::InProgress, 25),
        entry(1, Some(TaskStatus::InProgress), TaskStatus::Completed, 30),
    ];
    let analytics = TaskAnalytics::from_history(history).unwrap();
    assert_eq!(analytics.total_time_in_progress, Some(Duration::seconds(5)));
}

#[test]
fn zero_time_in_progress_is_absent() {
    let history = vec![
        creation(1),
        entry(1, Some(TaskStatus::Pending), TaskStatus::InProgress, 10),
        entry(1, Some(TaskStatus::InProgress), TaskStatus::Completed, 10),
    ];
    let analytics = TaskAnalytics::from_history(history).unwrap();
    assert_eq!(analytics.total_time_in_progress, None);
    assert_eq!(analytics.time_to_completion, Some(Duration::seconds(10)));
}

#[test]
fn completion_from_review_without_review_entry_has_no_approval_time() {
    let history = vec![
        creation(1),
        entry(1, Some(TaskStatus::PendingReview), TaskStatus::Completed, 50),
    ];
    let analytics = TaskAnalytics::from_history(history).unwrap();
    assert!(analytics.was_approved);
    assert_eq!(analytics.approval_time, None);
    assert_eq!(analytics.time_to_completion, Some(Duration::seconds(50)));
}

#[test]
fn creation_entry_is_the_first_without_from_status() {
    let history = vec![
        entry(4, Some(TaskStatus::Pending), TaskStatus::Pending, 0),
        entry(5, None, TaskStatus::Pending, 5),
        entry(5, None, TaskStatus::Pending, 8),
        entry(5, Some(TaskStatus::InProgress), TaskStatus::Completed, 20),
    ];
    assert_eq!(TaskAnalytics::creation_time(&history), Some(at(5)));
    let analytics = TaskAnalytics::from_history(history).unwrap();
    assert_eq!(analytics.task_id, 4);
    assert_eq!(analytics.created_at, at(5));
    assert_eq!(analytics.time_to_completion, Some(Duration::seconds(15)));
}

#[test]
fn history_entry_predicates() {
    let created = creation(1);
    assert!(created.is_initial_creation());
    assert!(!created.is_completion());
    assert!(!created.is_cancellation());
    assert!(!created.is_approval());

    let approved = entry(1, Some(TaskStatus::PendingReview), TaskStatus::Completed, 9);
    assert!(approved.is_completion());
    assert!(approved.is_approval());
    assert!(!approved.is_initial_creation());

    let done = entry(1, Some(TaskStatus::InProgress), TaskStatus::Completed, 9);
    assert!(done.is_completion());
    assert!(!done.is_approval());

    let cancelled = entry(1, Some(TaskStatus::Pending), TaskStatus::Cancelled, 9);
    assert!(cancelled.is_cancellation());
    assert!(!cancelled.is_completion());
}

#[test]
fn duration_from_previous_entry() {
    let first = entry(1, None, TaskStatus::Pending, 0);
    let second = entry(1, Some(TaskStatus::Pending), TaskStatus::InProgress, 90);
    let other_task = entry(2, Some(TaskStatus::Pending), TaskStatus::InProgress, 90);

    assert_eq!(second.duration_from_previous(&first), Some(Duration::seconds(90)));
    assert_eq!(first.duration_from_previous(&first), Some(Duration::zero()));
    assert_eq!(first.duration_from_previous(&second), None);
    assert_eq!(other_task.duration_from_previous(&first), None);
}
