use task_workflow::domain::{RepositoryError, StatusHistory, TaskId, TaskStatus, Timestamp, UserRole};
use task_workflow::persistence::{
    completion_analytics, history_delete_outcome, invalid_uuid, parse_history_id,
    row_to_status_history, row_to_task, task_write_outcome,
};

fn validation_message(error: RepositoryError) -> String {
    match error {
        RepositoryError::ValidationError(message) => message,
        other => panic!("expected a validation error, got {:?}", other),
    }
}

fn not_found_message(error: RepositoryError) -> String {
    match error {
        RepositoryError::NotFound(message) => message,
        other => panic!("expected a not-found error, got {:?}", other),
    }
}

#[test]
fn history_id_must_be_a_uuid() {
    let text = "550e8400-e29b-41d4-a716-446655440000";
    let parsed = parse_history_id(text).unwrap();
    assert_eq!(parsed, uuid::Uuid::parse_str(text).unwrap());
    assert_eq!(parsed.to_string(), text);

    let simple = parse_history_id("550e8400e29b41d4a716446655440000").unwrap();
    assert_eq!(simple, parsed);
}

#[test]
fn text_that_is_no_uuid_is_a_validation_error() {
    for text in ["", "mock-id", "550e8400-e29b-41d4-a716-44665544000", "not a uuid at all"] {
        let message = validation_message(parse_history_id(text).unwrap_err());
        assert!(message.starts_with("Invalid UUID: "), "{}", message);
        let detail = uuid::Uuid::parse_str(text).unwrap_err().to_string();
        assert_eq!(message, format!("Invalid UUID: {}", detail));
    }
}

#[test]
fn invalid_uuid_error_quotes_the_words() {
    assert_eq!(
        validation_message(invalid_uuid("too short")),
        "Invalid UUID: too short"
    );
}

#[test]
fn task_from_a_row() {
    let created = Timestamp::new(10, 0);
    let updated = Timestamp::new(20, 0);
    let task = row_to_task(5, "  Stored ".to_string(), Some(2), "PendingReview", created, updated)
        .unwrap();
    assert_eq!(task.id, TaskId::new(5));
    assert_eq!(task.name, "Stored");
    assert_eq!(task.priority, Some(2));
    assert_eq!(task.status, TaskStatus::PendingReview);
    assert_eq!(task.created_at, created);
    assert_eq!(task.updated_at, updated);
}

#[test]
fn task_row_with_faults() {
    let at = Timestamp::new(0, 0);
    assert_eq!(
        validation_message(row_to_task(1, "ok".to_string(), None, "Open", at, at).unwrap_err()),
        "Invalid task status: Open"
    );
    // The status is read before the name and the priority are checked.
    assert_eq!(
        validation_message(row_to_task(1, "".to_string(), Some(0), "Open", at, at).unwrap_err()),
        "Invalid task status: Open"
    );
    assert_eq!(
        validation_message(row_to_task(1, " ".to_string(), Some(0), "Pending", at, at).unwrap_err()),
        "Task name cannot be empty"
    );
    assert_eq!(
        validation_message(row_to_task(1, "ok".to_string(), Some(0), "Pending", at, at).unwrap_err()),
        "Priority must be between 1 and 10"
    );
}

fn history_row(from: Option<&str>, to: &str, role: &str) -> Result<StatusHistory, RepositoryError> {
    row_to_status_history(
        "550e8400-e29b-41d4-a716-446655440000".to_string(),
        12,
        from.map(|s| s.to_string()),
        to.to_string(),
        Timestamp::new(77, 5),
        "bob".to_string(),
        Some("because".to_string()),
        role.to_string(),
    )
}

#[test]
fn history_record_from_a_row() {
    let entry = history_row(Some("InProgress"), "PendingReview", "Manager").unwrap();
    assert_eq!(entry.id, "550e8400-e29b-41d4-a716-446655440000");
    assert_eq!(entry.task_id, 12);
    assert_eq!(entry.from_status, Some(TaskStatus::InProgress));
    assert_eq!(entry.to_status, TaskStatus::PendingReview);
    assert_eq!(entry.changed_at, Timestamp::new(77, 5));
    assert_eq!(entry.changed_by, "bob");
    assert_eq!(entry.comment, Some("because".to_string()));
    assert_eq!(entry.user_role, UserRole::Manager);

    let creation = history_row(None, "Pending", "User").unwrap();
    assert_eq!(creation.from_status, None);
    assert!(creation.is_initial_creation());
}

#[test]
fn history_row_with_faults_reports_the_first() {
    assert_eq!(
        validation_message(history_row(Some("Nowhere"), "Nothing", "Nobody").unwrap_err()),
        "Invalid task status: Nowhere"
    );
    assert_eq!(
        validation_message(history_row(Some("Pending"), "Nothing", "Nobody").unwrap_err()),
        "Invalid task status: Nothing"
    );
    assert_eq!(
        validation_message(history_row(None, "Pending", "Nobody").unwrap_err()),
        "Invalid user role: Nobody"
    );
}

#[test]
fn write_that_changed_no_row_means_not_found() {
    assert!(task_write_outcome(1, TaskId::new(4)).is_ok());
    assert!(task_write_outcome(3, TaskId::new(4)).is_ok());
    assert_eq!(
        not_found_message(task_write_outcome(0, TaskId::new(4)).unwrap_err()),
        "Task with id 4 not found"
    );
    assert_eq!(
        not_found_message(task_write_outcome(0, TaskId::new(-17)).unwrap_err()),
        "Task with id -17 not found"
    );
    assert!(history_delete_outcome(1, "abc").is_ok());
    assert_eq!(
        not_found_message(history_delete_outcome(0, "abc").unwrap_err()),
        "Status history with id abc not found"
    );
}

#[test]
fn analytics_of_many_histories_pass_over_those_without_any() {
    let complete = vec![
        history_row(None, "Pending", "User").unwrap(),
        history_row(Some("Pending"), "InProgress", "User").unwrap(),
        history_row(Some("InProgress"), "Completed", "User").unwrap(),
    ];
    let no_creation = vec![history_row(Some("Pending"), "InProgress", "User").unwrap()];
    let only_created = vec![history_row(None, "Pending", "User").unwrap()];
    let found = completion_analytics(vec![complete, vec![], no_creation, only_created]);
    assert_eq!(found.len(), 2);
    assert_eq!(found[0].number_of_transitions, 3);
    assert!(found[0].time_to_completion.is_some());
    assert_eq!(found[1].number_of_transitions, 1);
    assert_eq!(found[1].time_to_completion, None);
}

#[test]
fn repository_error_in_words() {
    assert_eq!(
        RepositoryError::NotFound("task 4".to_string()).to_string(),
        "Not found: task 4"
    );
    assert_eq!(
        RepositoryError::DatabaseError("down".to_string()).to_string(),
        "Database error: down"
    );
    assert_eq!(
        RepositoryError::ValidationError("bad".to_string()).to_string(),
        "Validation error: bad"
    );
}
