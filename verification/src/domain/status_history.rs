//! The history log: one record for each change of status of a task.

use vstd::prelude::*;
use vstd::string::*;
use crate::domain::task_status::TaskStatus;
use crate::domain::time::{Duration, Timestamp};
use crate::domain::user_role::UserRole;

verus! {

/// The record of one change of status. The record of the creation of a task
/// has no `from_status`.
#[derive(Debug, Clone)]
pub struct StatusHistory {
    pub id: String,
    pub task_id: i32,
    pub from_status: Option<TaskStatus>,
    pub to_status: TaskStatus,
    pub changed_at: Timestamp,
    pub changed_by: String,
    pub comment: Option<String>,
    pub user_role: UserRole,
}

/// What a record of the history is, as plain values.
pub struct StatusHistoryView {
    pub id: Seq<char>,
    pub task_id: i32,
    pub from_status: Option<TaskStatus>,
    pub to_status: TaskStatus,
    pub changed_at: int,
    pub changed_by: Seq<char>,
    pub comment: Option<Seq<char>>,
    pub user_role: UserRole,
}

impl View for StatusHistory {
    type V = StatusHistoryView;

    open spec fn view(&self) -> StatusHistoryView {
        StatusHistoryView {
            id: self.id@,
            task_id: self.task_id,
            from_status: self.from_status,
            to_status: self.to_status,
            changed_at: self.changed_at@,
            changed_by: self.changed_by@,
            comment: match self.comment {
                Some(text) => Some(text@),
                None => None,
            },
            user_role: self.user_role,
        }
    }
}

impl StatusHistoryView {
    /// The record of the creation of the task: it comes from no status.
    pub open spec fn is_initial_creation(self) -> bool {
        self.from_status is None
    }

    /// An approval: the move from `PendingReview` to `Completed`.
    pub open spec fn is_approval(self) -> bool {
        self.from_status == Some(TaskStatus::PendingReview) && self.to_status
            == TaskStatus::Completed
    }

    /// The time from `previous` to this record, where both are of one task
    /// and `previous` is not the later of the two.
    pub open spec fn duration_from_previous(self, previous: StatusHistoryView) -> Option<int> {
        if previous.task_id == self.task_id && previous.changed_at <= self.changed_at {
            Some(self.changed_at - previous.changed_at)
        } else {
            None
        }
    }
}

/// The views of the records of a history, in their order.
pub open spec fn views(history: Seq<StatusHistory>) -> Seq<StatusHistoryView> {
    history.map_values(|entry: StatusHistory| entry@)
}

impl StatusHistory {
    /// The record with the given values.
    pub fn new(
        id: String,
        task_id: i32,
        from_status: Option<TaskStatus>,
        to_status: TaskStatus,
        changed_at: Timestamp,
        changed_by: String,
        comment: Option<String>,
        user_role: UserRole,
    ) -> (entry: StatusHistory)
        ensures
            entry == (StatusHistory {
                id,
                task_id,
                from_status,
                to_status,
                changed_at,
                changed_by,
                comment,
                user_role,
            }),
    {
        StatusHistory {
            id,
            task_id,
            from_status,
            to_status,
            changed_at,
            changed_by,
            comment,
            user_role,
        }
    }

    /// Whether this is the record of the creation of the task.
    pub fn is_initial_creation(&self) -> (initial: bool)
        ensures
            initial == self@.is_initial_creation(),
    {
        self.from_status.is_none()
    }

    /// Whether the task entered `Completed`.
    pub fn is_completion(&self) -> (completion: bool)
        ensures
            completion == (self.to_status == TaskStatus::Completed),
    {
        self.to_status == TaskStatus::Completed
    }

    /// Whether the task entered `Cancelled`.
    pub fn is_cancellation(&self) -> (cancellation: bool)
        ensures
            cancellation == (self.to_status == TaskStatus::Cancelled),
    {
        self.to_status == TaskStatus::Cancelled
    }

    /// Whether the task went from `PendingReview` to `Completed`.
    pub fn is_approval(&self) -> (approval: bool)
        ensures
            approval == self@.is_approval(),
    {
        match (self.from_status, self.to_status) {
            (Some(TaskStatus::PendingReview), TaskStatus::Completed) => true,
            _ => false,
        }
    }

    /// The time from `previous` to this record, where both are of one task
    /// and `previous` is not the later of the two.
    pub fn duration_from_previous(&self, previous: &StatusHistory) -> (elapsed: Option<Duration>)
        ensures
            match elapsed {
                Some(span) => self@.duration_from_previous(previous@) == Some(span@),
                None => self@.duration_from_previous(previous@) is None,
            },
    {
        if previous.task_id == self.task_id && previous.changed_at.is_at_or_before(
            &self.changed_at,
        ) {
            Some(self.changed_at.duration_since(&previous.changed_at))
        } else {
            None
        }
    }
}

} // verus!
