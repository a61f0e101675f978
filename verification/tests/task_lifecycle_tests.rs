use task_workflow::domain::{Task, TaskId, TaskStatus, Timestamp};

fn task_in(status: TaskStatus, priority: Option<i32>) -> Task {
    Task::new_with_status(
        TaskId::new(1),
        "Lifecycle".to_string(),
        priority,
        status,
        Timestamp::new(1_000, 0),
        Timestamp::new(2_000, 0),
    )
    .unwrap()
}

const HIGH: Option<i32> = Some(3);
const LOW: Option<i32> = Some(4);

#[test]
fn name_length_boundaries() {
    assert!(Task::new(TaskId::new(1), "a".repeat(255), None).is_ok());
    assert_eq!(
        Task::new(TaskId::new(1), "a".repeat(256), None).unwrap_err(),
        "Task name cannot exceed 255 characters"
    );
    // The length is counted in characters, not in bytes.
    assert!(Task::new(TaskId::new(1), "é".repeat(255), None).is_ok());
    assert!(Task::new(TaskId::new(1), "é".repeat(256), None).is_err());
}

#[test]
fn whitespace_names_are_refused_before_the_priority_is_checked() {
    assert_eq!(
        Task::new(TaskId::new(1), " \t\n\u{a0}\u{3000}".to_string(), Some(0)).unwrap_err(),
        "Task name cannot be empty"
    );
    assert_eq!(
        Task::new(TaskId::new(1), " ".repeat(300), None).unwrap_err(),
        "Task name cannot be empty"
    );
}

#[test]
fn priority_boundaries() {
    assert!(Task::new(TaskId::new(1), "t".to_string(), Some(0)).is_err());
    assert!(Task::new(TaskId::new(1), "t".to_string(), Some(1)).is_ok());
    assert!(Task::new(TaskId::new(1), "t".to_string(), Some(10)).is_ok());
    assert!(Task::new(TaskId::new(1), "t".to_string(), Some(11)).is_err());
    assert!(Task::new(TaskId::new(1), "t".to_string(), Some(i32::MIN)).is_err());
    assert!(Task::new(TaskId::new(1), "t".to_string(), Some(i32::MAX)).is_err());
}

#[test]
fn high_priority_is_three_or_less() {
    assert!(task_in(TaskStatus::Pending, Some(1)).is_high_priority());
    assert!(task_in(TaskStatus::Pending, Some(3)).is_high_priority());
    assert!(!task_in(TaskStatus::Pending, Some(4)).is_high_priority());
    assert!(!task_in(TaskStatus::Pending, None).is_high_priority());
}

#[test]
fn new_task_is_pending_and_stamped_once() {
    let task = Task::new(TaskId::new(9), "  Fresh  ".to_string(), Some(2)).unwrap();
    assert_eq!(task.status, TaskStatus::Pending);
    assert_eq!(task.name, "Fresh");
    assert_eq!(task.created_at, task.updated_at);
}

#[test]
fn rehydrated_task_keeps_status_and_stamps() {
    let task = task_in(TaskStatus::PendingReview, HIGH);
    assert_eq!(task.status, TaskStatus::PendingReview);
    assert_eq!(task.created_at, Timestamp::new(1_000, 0));
    assert_eq!(task.updated_at, Timestamp::new(2_000, 0));
}

#[test]
fn start_progress_only_from_pending() {
    let now = Timestamp::new(3_000, 0);
    for status in TaskStatus::all() {
        let mut task = task_in(status, LOW);
        let result = task.start_progress_at(now);
        if status == TaskStatus::Pending {
            assert!(result.is_ok());
            assert_eq!(task.status, TaskStatus::InProgress);
            assert_eq!(task.updated_at, now);
        } else {
            assert_eq!(
                result.unwrap_err(),
                "Cannot start progress on task in current status"
            );
            assert_eq!(task, task_in(status, LOW));
        }
    }
}

#[test]
fn complete_sends_high_priority_to_review() {
    let now = Timestamp::new(3_000, 0);
    for status in TaskStatus::all() {
        let mut high = task_in(status, HIGH);
        let result = high.complete_at(now);
        if status == TaskStatus::InProgress {
            assert!(result.is_ok());
            assert_eq!(high.status, TaskStatus::PendingReview);
            assert_eq!(high.updated_at, now);
        } else {
            assert_eq!(
                result.unwrap_err(),
                "Cannot complete high-priority task without review"
            );
            assert_eq!(high, task_in(status, HIGH));
        }

        let mut low = task_in(status, LOW);
        let result = low.complete_at(now);
        if status == TaskStatus::InProgress || status == TaskStatus::PendingReview {
            assert!(result.is_ok());
            assert_eq!(low.status, TaskStatus::Completed);
            assert_eq!(low.updated_at, now);
        } else {
            assert_eq!(result.unwrap_err(), "Cannot complete task in current status");
            assert_eq!(low, task_in(status, LOW));
        }
    }
}

#[test]
fn approve_only_from_review() {
    let now = Timestamp::new(3_000, 0);
    for status in TaskStatus::all() {
        let mut task = task_in(status, HIGH);
        let result = task.approve_completion_at(now);
        if status == TaskStatus::PendingReview {
            assert!(result.is_ok());
            assert_eq!(task.status, TaskStatus::Completed);
            assert_eq!(task.updated_at, now);
        } else {
            assert_eq!(
                result.unwrap_err(),
                "Can only approve tasks in PendingReview status"
            );
            assert_eq!(task, task_in(status, HIGH));
        }
    }
}

#[test]
fn cancel_from_anything_but_completed() {
    let now = Timestamp::new(3_000, 0);
    for status in TaskStatus::all() {
        let mut task = task_in(status, LOW);
        let result = task.cancel_at(now);
        if status == TaskStatus::Completed {
            assert_eq!(result.unwrap_err(), "Cannot cancel completed tasks");
            assert_eq!(task, task_in(status, LOW));
        } else {
            assert!(result.is_ok());
            assert_eq!(task.status, TaskStatus::Cancelled);
            assert_eq!(task.updated_at, now);
        }
    }
}

fn expected_transition(
    status: TaskStatus,
    high: bool,
    target: TaskStatus,
) -> Result<TaskStatus, String> {
    match (status, target) {
        (TaskStatus::Pending, TaskStatus::InProgress) => Ok(TaskStatus::InProgress),
        (TaskStatus::Pending, TaskStatus::Cancelled) => Ok(TaskStatus::Cancelled),
        (TaskStatus::InProgress, TaskStatus::Completed) => {
            if high {
                Ok(TaskStatus::PendingReview)
            } else {
                Ok(TaskStatus::Completed)
            }
        }
        (TaskStatus::InProgress, TaskStatus::PendingReview) => {
            if high {
                Ok(TaskStatus::PendingReview)
            } else {
                Err("Only high-priority tasks can transition to PendingReview".to_string())
            }
        }
        (TaskStatus::InProgress, TaskStatus::Cancelled) => Ok(TaskStatus::Cancelled),
        (TaskStatus::PendingReview, TaskStatus::Completed) => Ok(TaskStatus::Completed),
        (TaskStatus::PendingReview, TaskStatus::Cancelled) => Ok(TaskStatus::Cancelled),
        (from, to) => Err(format!("Invalid transition from {:?} to {:?}", from, to)),
    }
}

#[test]
fn transition_to_dispatch_table() {
    let now = Timestamp::new(3_000, 0);
    for status in TaskStatus::all() {
        for target in TaskStatus::all() {
            for (priority, high) in [(HIGH, true), (LOW, false), (None, false)] {
                let mut task = task_in(status, priority);
                let result = task.transition_to_at(target, now);
                match expected_transition(status, high, target) {
                    Ok(next) => {
                        assert!(result.is_ok(), "{:?} -> {:?}", status, target);
                        assert_eq!(task.status, next);
                        assert_eq!(task.updated_at, now);
                        assert!(status.can_transition_to(&next));
                    }
                    Err(message) => {
                        assert_eq!(result.unwrap_err(), message);
                        assert_eq!(task, task_in(status, priority));
                    }
                }
            }
        }
    }
}

#[test]
fn clock_stamped_operations_agree_with_the_timed_ones() {
    let mut task = task_in(TaskStatus::Pending, HIGH);
    let before = task.updated_at;
    assert!(task.transition_to(TaskStatus::InProgress).is_ok());
    assert_eq!(task.status, TaskStatus::InProgress);
    assert!(task.updated_at > before);
    assert!(task.complete().is_ok());
    assert_eq!(task.status, TaskStatus::PendingReview);
    assert!(task.approve_completion().is_ok());
    assert_eq!(task.status, TaskStatus::Completed);
    assert!(task.cancel().is_err());
    assert!(task.start_progress().is_err());
    assert_eq!(task.status, TaskStatus::Completed);
    assert_eq!(task.created_at, Timestamp::new(1_000, 0));
}

#[test]
fn updates_keep_the_status_and_renew_the_stamp() {
    let now = Timestamp::new(5_000, 0);
    let mut task = task_in(TaskStatus::InProgress, LOW);
    assert!(task.update_name_at("  Renamed ".to_string(), now).is_ok());
    assert_eq!(task.name, "Renamed");
    assert_eq!(task.status, TaskStatus::InProgress);
    assert_eq!(task.updated_at, now);

    let later = Timestamp::new(6_000, 0);
    assert!(task.update_priority_at(None, later).is_ok());
    assert_eq!(task.priority, None);
    assert_eq!(task.updated_at, later);

    assert_eq!(
        task.update_name_at("x".repeat(256), now).unwrap_err(),
        "Task name cannot exceed 255 characters"
    );
    assert_eq!(task.name, "Renamed");
    assert_eq!(task.updated_at, later);
}
