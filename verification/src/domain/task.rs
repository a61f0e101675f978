//! The task aggregate: a task with its invariants and the only ways to
//! change it.

use vstd::prelude::*;
use vstd::string::*;
use crate::domain::task_domain_service::{
    name_error,
    priority_error,
    task_error,
    TaskDomainService,
    MAX_NAME_CHARS,
};
use crate::domain::task_id::TaskId;
use crate::domain::task_status::TaskStatus;
use crate::domain::time::Timestamp;
use crate::text::{is_whitespace, lemma_trimmed, trim, trimmed};

verus! {

/// A task: its identity, its name and priority, its place in the lifecycle,
/// and when it was made and last changed.
#[derive(Debug, Clone, PartialEq)]
pub struct Task {
    pub id: TaskId,
    pub name: String,
    pub priority: Option<i32>,
    pub status: TaskStatus,
    pub created_at: Timestamp,
    pub updated_at: Timestamp,
}

/// What a task is, as plain values.
pub struct TaskView {
    pub id: i32,
    pub name: Seq<char>,
    pub priority: Option<i32>,
    pub status: TaskStatus,
    pub created_at: int,
    pub updated_at: int,
}

impl View for Task {
    type V = TaskView;

    open spec fn view(&self) -> TaskView {
        TaskView {
            id: self.id@,
            name: self.name@,
            priority: self.priority,
            status: self.status,
            created_at: self.created_at@,
            updated_at: self.updated_at@,
        }
    }
}

/// A task is high-priority when it has a priority of 3 or less.
pub open spec fn high_priority(priority: Option<i32>) -> bool {
    priority matches Some(level) && level <= 3
}

impl TaskView {
    /// The invariant of a task: a trimmed name of 1 to 255 characters, a
    /// priority that is absent or between 1 and 10, and a status that can be
    /// reached from `Pending`.
    pub open spec fn wf(self) -> bool {
        &&& 0 < self.name.len() <= MAX_NAME_CHARS
        &&& !is_whitespace(self.name.first())
        &&& !is_whitespace(self.name.last())
        &&& priority_error(self.priority) is None
        &&& self.status.reachable()
    }

    /// Whether the task has a priority of 3 or less.
    pub open spec fn is_high_priority(self) -> bool {
        high_priority(self.priority)
    }

    /// The task as it is after a change of status at the instant `now`.
    pub open spec fn moved(self, status: TaskStatus, now: int) -> TaskView {
        TaskView { status, updated_at: now, ..self }
    }

    /// The task as it is after a change of name at the instant `now`.
    pub open spec fn renamed(self, name: Seq<char>, now: int) -> TaskView {
        TaskView { name: trimmed(name), updated_at: now, ..self }
    }

    /// The task as it is after a change of priority at the instant `now`.
    pub open spec fn reprioritized(self, priority: Option<i32>, now: int) -> TaskView {
        TaskView { priority, updated_at: now, ..self }
    }

}

/// What `start_progress` does to a task in `status`: the new status, or the
/// message of the refusal.
pub open spec fn start_outcome(status: TaskStatus) -> Result<TaskStatus, Seq<char>> {
    if status.allows(TaskStatus::InProgress) {
        Ok(TaskStatus::InProgress)
    } else {
        Err("Cannot start progress on task in current status"@)
    }
}

/// What `complete` does: a high-priority task goes to review, where the raw
/// relation allows that; any other becomes `Completed`, where it allows that.
pub open spec fn complete_outcome(status: TaskStatus, is_high_priority: bool) -> Result<
    TaskStatus,
    Seq<char>,
> {
    if is_high_priority {
        if status.allows(TaskStatus::PendingReview) {
            Ok(TaskStatus::PendingReview)
        } else {
            Err("Cannot complete high-priority task without review"@)
        }
    } else {
        if status.allows(TaskStatus::Completed) {
            Ok(TaskStatus::Completed)
        } else {
            Err("Cannot complete task in current status"@)
        }
    }
}

/// What `approve_completion` does: a task under review becomes `Completed`.
pub open spec fn approve_outcome(status: TaskStatus) -> Result<TaskStatus, Seq<char>> {
    if status == TaskStatus::PendingReview {
        Ok(TaskStatus::Completed)
    } else {
        Err("Can only approve tasks in PendingReview status"@)
    }
}

/// What `cancel` does: any task but a completed one becomes `Cancelled`.
pub open spec fn cancel_outcome(status: TaskStatus) -> Result<TaskStatus, Seq<char>> {
    if status == TaskStatus::Completed {
        Err("Cannot cancel completed tasks"@)
    } else {
        Ok(TaskStatus::Cancelled)
    }
}

/// What `transition_to` does, by the current status, the priority and the
/// target. A move that the raw relation does not allow is refused. Of the
/// seven that it allows, a task in progress that is asked to complete goes
/// to review instead where it is high-priority, and is refused the move to
/// review where it is not.
pub open spec fn transition_outcome(
    status: TaskStatus,
    is_high_priority: bool,
    target: TaskStatus,
) -> Result<TaskStatus, Seq<char>> {
    if !status.allows(target) {
        Err(TaskStatus::invalid_transition_message(status, target))
    } else if status == TaskStatus::InProgress && target == TaskStatus::Completed
        && is_high_priority {
        Ok(TaskStatus::PendingReview)
    } else if target == TaskStatus::PendingReview && !is_high_priority {
        Err("Only high-priority tasks can transition to PendingReview"@)
    } else {
        Ok(target)
    }
}

/// Whether `outcome` and the task after the call are what `expected` says
/// of the task before the call and the instant `now`: on success the new
/// status and the new stamp, on refusal the message and the task unchanged.
pub open spec fn applied(
    outcome: Result<(), String>,
    before: TaskView,
    after: TaskView,
    expected: Result<TaskStatus, Seq<char>>,
    now: int,
) -> bool {
    match expected {
        Ok(status) => outcome is Ok && after == before.moved(status, now),
        Err(message) => outcome matches Err(text) && text@ == message && after == before,
    }
}

/// As `applied`, for a call that reads the clock: the new stamp is whatever
/// the clock showed.
pub open spec fn applied_at_some_instant(
    outcome: Result<(), String>,
    before: TaskView,
    after: TaskView,
    expected: Result<TaskStatus, Seq<char>>,
) -> bool {
    applied(outcome, before, after, expected, after.updated_at)
}

impl Task {
    /// A new task in `Pending`, made and last changed now.
    pub fn new(id: TaskId, name: String, priority: Option<i32>) -> (made: Result<Task, String>)
        ensures
            match made {
                Ok(task) => {
                    &&& task_error(name@, priority) is None
                    &&& task@ == (TaskView {
                        id: id@,
                        name: trimmed(name@),
                        priority,
                        status: TaskStatus::Pending,
                        created_at: task@.created_at,
                        updated_at: task@.created_at,
                    })
                    &&& task@.wf()
                },
                Err(message) => task_error(name@, priority) == Some(message@),
            },
    {
        let now = Timestamp::now();
        Task::new_with_status(id, name, priority, TaskStatus::Pending, now, now)
    }

    /// A task with the given status and stamps, as when it is read back from
    /// a store. The name and the priority are checked as for a new task.
    pub fn new_with_status(
        id: TaskId,
        name: String,
        priority: Option<i32>,
        status: TaskStatus,
        created_at: Timestamp,
        updated_at: Timestamp,
    ) -> (made: Result<Task, String>)
        ensures
            match made {
                Ok(task) => {
                    &&& task_error(name@, priority) is None
                    &&& task@ == (TaskView {
                        id: id@,
                        name: trimmed(name@),
                        priority,
                        status,
                        created_at: created_at@,
                        updated_at: updated_at@,
                    })
                    &&& task@.wf()
                },
                Err(message) => task_error(name@, priority) == Some(message@),
            },
    {
        let service = TaskDomainService::new();
        match service.validate_task_name(name.as_str()) {
            Err(message) => {
                return Err(message);
            },
            Ok(()) => {},
        }
        match service.validate_priority(priority) {
            Err(message) => {
                return Err(message);
            },
            Ok(()) => {},
        }
        proof {
            lemma_trimmed(name@);
            TaskStatus::lemma_every_status_reachable(status);
        }
        Ok(Task { id, name: trim(name.as_str()), priority, status, created_at, updated_at })
    }

    /// The status of the task.
    pub fn status(&self) -> (status: &TaskStatus)
        ensures
            *status == self.status,
    {
        &self.status
    }

    /// Whether the task has a priority of 3 or less.
    pub fn is_high_priority(&self) -> (high: bool)
        ensures
            high == self@.is_high_priority(),
    {
        match self.priority {
            Some(level) => level <= 3,
            None => false,
        }
    }

    /// Gives the task the status `status` and stamps it with `now`.
    fn move_to(&mut self, status: TaskStatus, now: Timestamp)
        ensures
            final(self)@ == old(self)@.moved(status, now@),
    {
        self.status = status;
        self.updated_at = now;
    }

    /// Renames the task at the instant `now`. The name is checked and
    /// trimmed as for a new task; a refusal leaves the task as it was.
    pub fn update_name_at(&mut self, name: String, now: Timestamp) -> (outcome: Result<(), String>)
        ensures
            match name_error(name@) {
                None => outcome is Ok && final(self)@ == old(self)@.renamed(name@, now@),
                Some(message) => outcome matches Err(text) && text@ == message && final(self)@
                    == old(self)@,
            },
            old(self)@.wf() ==> final(self)@.wf(),
    {
        match TaskDomainService::new().validate_task_name(name.as_str()) {
            Err(message) => {
                return Err(message);
            },
            Ok(()) => {},
        }
        proof {
            lemma_trimmed(name@);
        }
        self.name = trim(name.as_str());
        self.updated_at = now;
        Ok(())
    }

    /// Renames the task and stamps it with the time of the clock.
    pub fn update_name(&mut self, name: String) -> (outcome: Result<(), String>)
        ensures
            match name_error(name@) {
                None => outcome is Ok && final(self)@ == old(self)@.renamed(
                    name@,
                    final(self)@.updated_at,
                ),
                Some(message) => outcome matches Err(text) && text@ == message && final(self)@
                    == old(self)@,
            },
            old(self)@.wf() ==> final(self)@.wf(),
    {
        let now = Timestamp::now();
        self.update_name_at(name, now)
    }

    /// Changes the priority of the task at the instant `now`. A refusal
    /// leaves the task as it was.
    pub fn update_priority_at(&mut self, priority: Option<i32>, now: Timestamp) -> (outcome: Result<
        (),
        String,
    >)
        ensures
            match priority_error(priority) {
                None => outcome is Ok && final(self)@ == old(self)@.reprioritized(priority, now@),
                Some(message) => outcome matches Err(text) && text@ == message && final(self)@
                    == old(self)@,
            },
            old(self)@.wf() ==> final(self)@.wf(),
    {
        match TaskDomainService::new().validate_priority(priority) {
            Err(message) => {
                return Err(message);
            },
            Ok(()) => {},
        }
        self.priority = priority;
        self.updated_at = now;
        Ok(())
    }

    /// Changes the priority of the task and stamps it with the time of the
    /// clock.
    pub fn update_priority(&mut self, priority: Option<i32>) -> (outcome: Result<(), String>)
        ensures
            match priority_error(priority) {
                None => outcome is Ok && final(self)@ == old(self)@.reprioritized(
                    priority,
                    final(self)@.updated_at,
                ),
                Some(message) => outcome matches Err(text) && text@ == message && final(self)@
                    == old(self)@,
            },
            old(self)@.wf() ==> final(self)@.wf(),
    {
        let now = Timestamp::now();
        self.update_priority_at(priority, now)
    }

    /// Starts work on the task at the instant `now`.
    pub fn start_progress_at(&mut self, now: Timestamp) -> (outcome: Result<(), String>)
        ensures
            applied(outcome, old(self)@, final(self)@, start_outcome(old(self)@.status), now@),
            old(self)@.wf() ==> final(self)@.wf(),
    {
        if !self.status.can_transition_to(&TaskStatus::InProgress) {
            return Err(String::from_str("Cannot start progress on task in current status"));
        }
        proof {
            lemma_outcomes_follow_edges(self@.status, self@.is_high_priority());
        }
        self.move_to(TaskStatus::InProgress, now);
        Ok(())
    }

    /// Starts work on the task and stamps it with the time of the clock.
    pub fn start_progress(&mut self) -> (outcome: Result<(), String>)
        ensures
            applied_at_some_instant(
                outcome,
                old(self)@,
                final(self)@,
                start_outcome(old(self)@.status),
            ),
            old(self)@.wf() ==> final(self)@.wf(),
    {
        let now = Timestamp::now();
        self.start_progress_at(now)
    }

    /// Reports at the instant `now` that the work is done: a high-priority
    /// task goes to review, any other is completed. The role of the caller
    /// is not asked.
    pub fn complete_at(&mut self, now: Timestamp) -> (outcome: Result<(), String>)
        ensures
            applied(
                outcome,
                old(self)@,
                final(self)@,
                complete_outcome(old(self)@.status, old(self)@.is_high_priority()),
                now@,
            ),
            old(self)@.wf() ==> final(self)@.wf(),
    {
        proof {
            lemma_outcomes_follow_edges(self@.status, self@.is_high_priority());
        }
        if self.is_high_priority() {
            if !self.status.can_transition_to(&TaskStatus::PendingReview) {
                return Err(String::from_str("Cannot complete high-priority task without review"));
            }
            self.move_to(TaskStatus::PendingReview, now);
        } else {
            if !self.status.can_transition_to(&TaskStatus::Completed) {
                return Err(String::from_str("Cannot complete task in current status"));
            }
            self.move_to(TaskStatus::Completed, now);
        }
        Ok(())
    }

    /// Reports that the work is done and stamps the task with the time of
    /// the clock.
    pub fn complete(&mut self) -> (outcome: Result<(), String>)
        ensures
            applied_at_some_instant(
                outcome,
                old(self)@,
                final(self)@,
                complete_outcome(old(self)@.status, old(self)@.is_high_priority()),
            ),
            old(self)@.wf() ==> final(self)@.wf(),
    {
        let now = Timestamp::now();
        self.complete_at(now)
    }

    /// Approves at the instant `now` the completion of a task under review.
    /// Whether the caller may approve is for the transition policy to say.
    pub fn approve_completion_at(&mut self, now: Timestamp) -> (outcome: Result<(), String>)
        ensures
            applied(outcome, old(self)@, final(self)@, approve_outcome(old(self)@.status), now@),
            old(self)@.wf() ==> final(self)@.wf(),
    {
        if self.status != TaskStatus::PendingReview {
            return Err(String::from_str("Can only approve tasks in PendingReview status"));
        }
        proof {
            lemma_outcomes_follow_edges(self@.status, self@.is_high_priority());
        }
        self.move_to(TaskStatus::Completed, now);
        Ok(())
    }

    /// Approves the completion of a task under review and stamps the task
    /// with the time of the clock.
    pub fn approve_completion(&mut self) -> (outcome: Result<(), String>)
        ensures
            applied_at_some_instant(
                outcome,
                old(self)@,
                final(self)@,
                approve_outcome(old(self)@.status),
            ),
            old(self)@.wf() ==> final(self)@.wf(),
    {
        let now = Timestamp::now();
        self.approve_completion_at(now)
    }

    /// Cancels the task at the instant `now`, unless it is completed.
    pub fn cancel_at(&mut self, now: Timestamp) -> (outcome: Result<(), String>)
        ensures
            applied(outcome, old(self)@, final(self)@, cancel_outcome(old(self)@.status), now@),
            old(self)@.wf() ==> final(self)@.wf(),
    {
        if self.status == TaskStatus::Completed {
            return Err(String::from_str("Cannot cancel completed tasks"));
        }
        proof {
            lemma_outcomes_follow_edges(self@.status, self@.is_high_priority());
        }
        self.move_to(TaskStatus::Cancelled, now);
        Ok(())
    }

    /// Cancels the task, unless it is completed, and stamps it with the time
    /// of the clock.
    pub fn cancel(&mut self) -> (outcome: Result<(), String>)
        ensures
            applied_at_some_instant(
                outcome,
                old(self)@,
                final(self)@,
                cancel_outcome(old(self)@.status),
            ),
            old(self)@.wf() ==> final(self)@.wf(),
    {
        let now = Timestamp::now();
        self.cancel_at(now)
    }

    /// Moves the task toward `new_status` at the instant `now`, for a caller
    /// that knows the target and not the operation that leads there.
    pub fn transition_to_at(&mut self, new_status: TaskStatus, now: Timestamp) -> (outcome: Result<
        (),
        String,
    >)
        ensures
            applied(
                outcome,
                old(self)@,
                final(self)@,
                transition_outcome(old(self)@.status, old(self)@.is_high_priority(), new_status),
                now@,
            ),
            old(self)@.wf() ==> final(self)@.wf(),
    {
        if !self.status.can_transition_to(&new_status) {
            return Err(self.status.invalid_transition(&new_status));
        }
        match new_status {
            TaskStatus::InProgress => self.start_progress_at(now),
            TaskStatus::Completed => {
                if self.status == TaskStatus::PendingReview {
                    self.approve_completion_at(now)
                } else {
                    self.complete_at(now)
                }
            },
            TaskStatus::PendingReview => {
                if self.is_high_priority() && self.status == TaskStatus::InProgress {
                    self.complete_at(now)
                } else {
                    Err(String::from_str("Only high-priority tasks can transition to PendingReview"))
                }
            },
            TaskStatus::Cancelled => self.cancel_at(now),
            TaskStatus::Pending => Err(String::from_str("Invalid status transition")),
        }
    }

    /// Moves the task toward `new_status` and stamps it with the time of the
    /// clock.
    pub fn transition_to(&mut self, new_status: TaskStatus) -> (outcome: Result<(), String>)
        ensures
            applied_at_some_instant(
                outcome,
                old(self)@,
                final(self)@,
                transition_outcome(old(self)@.status, old(self)@.is_high_priority(), new_status),
            ),
            old(self)@.wf() ==> final(self)@.wf(),
    {
        let now = Timestamp::now();
        self.transition_to_at(new_status, now)
    }
}

/// No operation of the aggregate leaves the state machine: whatever status
/// an operation gives a task is the one it had, or one that the raw relation
/// allows after it.
pub proof fn lemma_outcomes_follow_edges(status: TaskStatus, is_high_priority: bool)
    ensures
        start_outcome(status) matches Ok(next) ==> status.allows(next),
        complete_outcome(status, is_high_priority) matches Ok(next) ==> status.allows(next),
        approve_outcome(status) matches Ok(next) ==> status.allows(next),
        cancel_outcome(status) matches Ok(next) ==> next == status || status.allows(next),
        forall|target: TaskStatus|
            #[trigger] transition_outcome(status, is_high_priority, target) matches Ok(next)
                ==> status.allows(next),
        status.reachable() ==> {
            &&& start_outcome(status) matches Ok(next) ==> next.reachable()
            &&& complete_outcome(status, is_high_priority) matches Ok(next) ==> next.reachable()
            &&& approve_outcome(status) matches Ok(next) ==> next.reachable()
            &&& cancel_outcome(status) matches Ok(next) ==> next.reachable()
        },
{
    TaskStatus::lemma_every_status_reachable(TaskStatus::InProgress);
    TaskStatus::lemma_every_status_reachable(TaskStatus::PendingReview);
    TaskStatus::lemma_every_status_reachable(TaskStatus::Completed);
    TaskStatus::lemma_every_status_reachable(TaskStatus::Cancelled);
}

/// What `transition_to` does, case by case, for the moves that the raw
/// relation allows.
pub proof fn lemma_transition_table(is_high_priority: bool)
    ensures
        transition_outcome(TaskStatus::Pending, is_high_priority, TaskStatus::InProgress) == Ok::<
            TaskStatus,
            Seq<char>,
        >(TaskStatus::InProgress),
        transition_outcome(TaskStatus::Pending, is_high_priority, TaskStatus::Cancelled) == Ok::<
            TaskStatus,
            Seq<char>,
        >(TaskStatus::Cancelled),
        transition_outcome(TaskStatus::InProgress, is_high_priority, TaskStatus::Completed)
            == complete_outcome(TaskStatus::InProgress, is_high_priority),
        transition_outcome(TaskStatus::InProgress, true, TaskStatus::Completed) == Ok::<
            TaskStatus,
            Seq<char>,
        >(TaskStatus::PendingReview),
        transition_outcome(TaskStatus::InProgress, false, TaskStatus::Completed) == Ok::<
            TaskStatus,
            Seq<char>,
        >(TaskStatus::Completed),
        transition_outcome(TaskStatus::InProgress, true, TaskStatus::PendingReview) == Ok::<
            TaskStatus,
            Seq<char>,
        >(TaskStatus::PendingReview),
        transition_outcome(TaskStatus::InProgress, false, TaskStatus::PendingReview) is Err,
        transition_outcome(TaskStatus::InProgress, is_high_priority, TaskStatus::Cancelled)
            == Ok::<TaskStatus, Seq<char>>(TaskStatus::Cancelled),
        transition_outcome(TaskStatus::PendingReview, is_high_priority, TaskStatus::Completed)
            == approve_outcome(TaskStatus::PendingReview),
        transition_outcome(TaskStatus::PendingReview, is_high_priority, TaskStatus::Cancelled)
            == Ok::<TaskStatus, Seq<char>>(TaskStatus::Cancelled),
{
}

} // verus!
