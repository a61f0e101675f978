//! The transition policy: the business rules laid over the raw transition
//! relation, by the priority of the task and the role of the actor.

use vstd::prelude::*;
use vstd::string::*;
use crate::domain::task_status::TaskStatus;
use crate::domain::user_role::UserRole;

verus! {

/// Why the policy refuses a transition. The rules are tried in the order of
/// the variants, and the first that fails gives the reason.
#[derive(Debug, Clone, Copy, PartialEq, Eq, Structural)]
pub enum TransitionDenial {
    /// The raw relation has no such edge.
    InvalidTransition,
    /// A high-priority task cannot go from `InProgress` straight to
    /// `Completed`.
    ReviewRequired,
    /// Only a role that may approve completes a task under review.
    ApprovalRequired,
}

/// The reason for which the policy refuses the move from `from` to `to`, or
/// `None` where it permits the move.
pub open spec fn denial(
    from: TaskStatus,
    to: TaskStatus,
    is_high_priority: bool,
    role: UserRole,
) -> Option<TransitionDenial> {
    if !from.allows(to) {
        Some(TransitionDenial::InvalidTransition)
    } else if from == TaskStatus::InProgress && to == TaskStatus::Completed && is_high_priority {
        Some(TransitionDenial::ReviewRequired)
    } else if from == TaskStatus::PendingReview && to == TaskStatus::Completed && !role.approves() {
        Some(TransitionDenial::ApprovalRequired)
    } else {
        None
    }
}

/// Whether the policy permits the move from `from` to `to`.
pub open spec fn permits(
    from: TaskStatus,
    to: TaskStatus,
    is_high_priority: bool,
    role: UserRole,
) -> bool {
    denial(from, to, is_high_priority, role) is None
}

/// The text in which a refusal is reported.
pub open spec fn denial_message(reason: TransitionDenial, from: TaskStatus, to: TaskStatus) -> Seq<
    char,
> {
    match reason {
        TransitionDenial::InvalidTransition => TaskStatus::invalid_transition_message(from, to),
        TransitionDenial::ReviewRequired => "High-priority tasks must go through review before completion"@,
        TransitionDenial::ApprovalRequired => "Only managers can approve task completion"@,
    }
}

/// The statuses that the policy permits as the next one, in canonical order.
pub open spec fn valid_transitions(
    current: TaskStatus,
    is_high_priority: bool,
    role: UserRole,
) -> Seq<TaskStatus> {
    TaskStatus::canonical_order().filter(
        |to: TaskStatus| permits(current, to, is_high_priority, role),
    )
}

/// The message that confirms a permitted move.
pub open spec fn success_message(from: TaskStatus, to: TaskStatus) -> Seq<char> {
    if from == TaskStatus::Pending && to == TaskStatus::InProgress {
        "Task started successfully"@
    } else if from == TaskStatus::InProgress && to == TaskStatus::Completed {
        "Task completed successfully"@
    } else if from == TaskStatus::InProgress && to == TaskStatus::PendingReview {
        "Task sent for review"@
    } else if from == TaskStatus::PendingReview && to == TaskStatus::Completed {
        "Task approved and completed"@
    } else if to == TaskStatus::Cancelled {
        "Task cancelled"@
    } else {
        "Task status updated"@
    }
}

/// Whether a move should come with a comment: an approval and a cancellation
/// should. This is advice to the caller; the policy does not enforce it.
pub open spec fn comment_required(from: TaskStatus, to: TaskStatus) -> bool {
    (from == TaskStatus::PendingReview && to == TaskStatus::Completed) || to
        == TaskStatus::Cancelled
}

/// The role to which a task should be handed after a move: work that enters
/// review goes to a manager. This is advice to the caller.
pub open spec fn next_assignee(from: TaskStatus, to: TaskStatus) -> Option<UserRole> {
    if from == TaskStatus::InProgress && to == TaskStatus::PendingReview {
        Some(UserRole::Manager)
    } else {
        None
    }
}

/// The place of a status in the canonical order.
pub open spec fn rank(status: TaskStatus) -> int {
    match status {
        TaskStatus::Pending => 0,
        TaskStatus::InProgress => 1,
        TaskStatus::PendingReview => 2,
        TaskStatus::Completed => 3,
        TaskStatus::Cancelled => 4,
    }
}

/// The legal next statuses, case by case.
pub proof fn lemma_valid_transitions_table(
    current: TaskStatus,
    is_high_priority: bool,
    role: UserRole,
)
    ensures
        valid_transitions(current, is_high_priority, role) == match current {
            TaskStatus::Pending => seq![TaskStatus::InProgress, TaskStatus::Cancelled],
            TaskStatus::InProgress => if is_high_priority {
                seq![TaskStatus::PendingReview, TaskStatus::Cancelled]
            } else {
                seq![TaskStatus::PendingReview, TaskStatus::Completed, TaskStatus::Cancelled]
            },
            TaskStatus::PendingReview => if role.approves() {
                seq![TaskStatus::Completed, TaskStatus::Cancelled]
            } else {
                seq![TaskStatus::Cancelled]
            },
            TaskStatus::Completed => seq![],
            TaskStatus::Cancelled => seq![],
        },
{
    let keep = |to: TaskStatus| permits(current, to, is_high_priority, role);
    let all = TaskStatus::canonical_order();
    reveal(Seq::filter);
    assert(all.take(0).filter(keep) =~= seq![]);
    assert(all.take(1).drop_last() =~= all.take(0));
    assert(all.take(2).drop_last() =~= all.take(1));
    assert(all.take(3).drop_last() =~= all.take(2));
    assert(all.take(4).drop_last() =~= all.take(3));
    assert(all.take(5).drop_last() =~= all.take(4));
    assert(all.take(5) =~= all);
    let one = all.take(1).filter(keep);
    let two = all.take(2).filter(keep);
    let three = all.take(3).filter(keep);
    let four = all.take(4).filter(keep);
    let five = all.take(5).filter(keep);
    assert(one =~= seq![]);
    assert(two =~= if keep(TaskStatus::InProgress) {
        seq![TaskStatus::InProgress]
    } else {
        seq![]
    });
    assert(three =~= if keep(TaskStatus::PendingReview) {
        two.push(TaskStatus::PendingReview)
    } else {
        two
    });
    assert(four =~= if keep(TaskStatus::Completed) {
        three.push(TaskStatus::Completed)
    } else {
        three
    });
    assert(five =~= if keep(TaskStatus::Cancelled) {
        four.push(TaskStatus::Cancelled)
    } else {
        four
    });
    assert(valid_transitions(current, is_high_priority, role) =~= match current {
        TaskStatus::Pending => seq![TaskStatus::InProgress, TaskStatus::Cancelled],
        TaskStatus::InProgress => if is_high_priority {
            seq![TaskStatus::PendingReview, TaskStatus::Cancelled]
        } else {
            seq![TaskStatus::PendingReview, TaskStatus::Completed, TaskStatus::Cancelled]
        },
        TaskStatus::PendingReview => if role.approves() {
            seq![TaskStatus::Completed, TaskStatus::Cancelled]
        } else {
            seq![TaskStatus::Cancelled]
        },
        TaskStatus::Completed => seq![],
        TaskStatus::Cancelled => seq![],
    });
}

/// What `get_valid_transitions` returns holds exactly the statuses that the
/// policy permits, each once and in canonical order.
pub proof fn lemma_valid_transitions_sound_and_ordered(
    current: TaskStatus,
    is_high_priority: bool,
    role: UserRole,
)
    ensures
        forall|to: TaskStatus|
            valid_transitions(current, is_high_priority, role).contains(to) <==> permits(
                current,
                to,
                is_high_priority,
                role,
            ),
        forall|i: int, j: int|
            0 <= i < j < valid_transitions(current, is_high_priority, role).len() ==> rank(
                valid_transitions(current, is_high_priority, role)[i],
            ) < rank(valid_transitions(current, is_high_priority, role)[j]),
{
    lemma_valid_transitions_table(current, is_high_priority, role);
    let valid = valid_transitions(current, is_high_priority, role);
    assert forall|to: TaskStatus| valid.contains(to) <==> permits(
        current,
        to,
        is_high_priority,
        role,
    ) by {
        if permits(current, to, is_high_priority, role) {
            assert((valid.len() > 0 && valid[0] == to) || (valid.len() > 1 && valid[1] == to) || (
            valid.len() > 2 && valid[2] == to));
        }
    }
}

/// A high-priority task in progress can never be completed directly,
/// whoever asks, and can always be sent to review.
pub proof fn lemma_high_priority_goes_through_review(role: UserRole)
    ensures
        denial(TaskStatus::InProgress, TaskStatus::Completed, true, role) == Some(
            TransitionDenial::ReviewRequired,
        ),
        permits(TaskStatus::InProgress, TaskStatus::PendingReview, true, role),
{
}

/// A task under review is completed by a role that may approve, and by no
/// other, whatever its priority.
pub proof fn lemma_only_approvers_complete_review(role: UserRole, is_high_priority: bool)
    ensures
        role.approves() ==> permits(
            TaskStatus::PendingReview,
            TaskStatus::Completed,
            is_high_priority,
            role,
        ),
        !role.approves() ==> denial(
            TaskStatus::PendingReview,
            TaskStatus::Completed,
            is_high_priority,
            role,
        ) == Some(TransitionDenial::ApprovalRequired),
{
}

/// The policy never permits what the raw relation does not allow.
pub proof fn lemma_policy_within_raw_relation(
    from: TaskStatus,
    to: TaskStatus,
    is_high_priority: bool,
    role: UserRole,
)
    requires
        permits(from, to, is_high_priority, role),
    ensures
        from.allows(to),
{
}

/// The legal next statuses depend on nothing but the three inputs: asking
/// twice gives the same sequence.
pub proof fn lemma_valid_transitions_repeatable(
    first: Seq<TaskStatus>,
    second: Seq<TaskStatus>,
    current: TaskStatus,
    is_high_priority: bool,
    role: UserRole,
)
    requires
        first == valid_transitions(current, is_high_priority, role),
        second == valid_transitions(current, is_high_priority, role),
    ensures
        first == second,
{
}

/// The policy that decides which transitions an actor may perform.
#[derive(Debug, Clone, Copy)]
pub struct TaskStatusService;

impl TaskStatusService {
    /// The policy. It holds nothing.
    pub fn new() -> (service: TaskStatusService) {
        TaskStatusService
    }

    /// The first rule that refuses the move, or `None` where all permit it.
    pub fn check_transition(
        &self,
        from: &TaskStatus,
        to: &TaskStatus,
        is_high_priority: bool,
        user_role: &UserRole,
    ) -> (reason: Option<TransitionDenial>)
        ensures
            reason == denial(*from, *to, is_high_priority, *user_role),
    {
        if !from.can_transition_to(to) {
            return Some(TransitionDenial::InvalidTransition);
        }
        match (from, to) {
            (TaskStatus::InProgress, TaskStatus::Completed) if is_high_priority => Some(
                TransitionDenial::ReviewRequired,
            ),
            (TaskStatus::PendingReview, TaskStatus::Completed) if !user_role.can_approve() => Some(
                TransitionDenial::ApprovalRequired,
            ),
            _ => None,
        }
    }

    /// Permits or refuses the move from `from` to `to`; a refusal carries the
    /// message of the first rule that failed.
    pub fn can_transition(
        &self,
        from: &TaskStatus,
        to: &TaskStatus,
        is_high_priority: bool,
        user_role: &UserRole,
    ) -> (verdict: Result<(), String>)
        ensures
            verdict is Ok <==> permits(*from, *to, is_high_priority, *user_role),
            verdict matches Err(message) ==> message@ == denial_message(
                denial(*from, *to, is_high_priority, *user_role)->0,
                *from,
                *to,
            ),
    {
        match self.check_transition(from, to, is_high_priority, user_role) {
            None => Ok(()),
            Some(TransitionDenial::InvalidTransition) => Err(from.invalid_transition(to)),
            Some(TransitionDenial::ReviewRequired) => Err(
                String::from_str("High-priority tasks must go through review before completion"),
            ),
            Some(TransitionDenial::ApprovalRequired) => Err(
                String::from_str("Only managers can approve task completion"),
            ),
        }
    }

    /// The statuses that the actor may move the task to, in canonical order.
    pub fn get_valid_transitions(
        &self,
        current: &TaskStatus,
        is_high_priority: bool,
        user_role: &UserRole,
    ) -> (transitions: Vec<TaskStatus>)
        ensures
            transitions@ == valid_transitions(*current, is_high_priority, *user_role),
    {
        let all_statuses = TaskStatus::all();
        let mut transitions: Vec<TaskStatus> = Vec::new();
        let ghost keep = |to: TaskStatus| permits(*current, to, is_high_priority, *user_role);
        let mut i: usize = 0;
        proof {
            reveal(Seq::filter);
            assert(all_statuses@.take(0).filter(keep) =~= Seq::<TaskStatus>::empty());
        }
        while i < all_statuses.len()
            invariant
                i <= all_statuses.len(),
                all_statuses@ == TaskStatus::canonical_order(),
                keep == |to: TaskStatus| permits(*current, to, is_high_priority, *user_role),
                transitions@ == all_statuses@.take(i as int).filter(keep),
            decreases all_statuses.len() - i,
        {
            let status = all_statuses[i];
            proof {
                reveal(Seq::filter);
                assert(all_statuses@.take(i + 1).drop_last() =~= all_statuses@.take(i as int));
            }
            if self.check_transition(current, &status, is_high_priority, user_role).is_none() {
                transitions.push(status);
            }
            i = i + 1;
        }
        assert(all_statuses@.take(i as int) =~= all_statuses@);
        transitions
    }

    /// Checks the move as `can_transition` does and, where it is permitted,
    /// gives the message that confirms it.
    pub fn validate_status_change(
        &self,
        from: &TaskStatus,
        to: &TaskStatus,
        is_high_priority: bool,
        user_role: &UserRole,
    ) -> (outcome: Result<String, String>)
        ensures
            outcome is Ok <==> permits(*from, *to, is_high_priority, *user_role),
            outcome matches Ok(message) ==> message@ == success_message(*from, *to),
            outcome matches Err(message) ==> message@ == denial_message(
                denial(*from, *to, is_high_priority, *user_role)->0,
                *from,
                *to,
            ),
    {
        match self.can_transition(from, to, is_high_priority, user_role) {
            Err(message) => Err(message),
            Ok(()) => {
                let message = match (from, to) {
                    (TaskStatus::Pending, TaskStatus::InProgress) => "Task started successfully",
                    (TaskStatus::InProgress, TaskStatus::Completed) => "Task completed successfully",
                    (TaskStatus::InProgress, TaskStatus::PendingReview) => "Task sent for review",
                    (TaskStatus::PendingReview, TaskStatus::Completed) => "Task approved and completed",
                    (_, TaskStatus::Cancelled) => "Task cancelled",
                    _ => "Task status updated",
                };
                Ok(String::from_str(message))
            },
        }
    }

    /// Whether the move should come with a comment.
    pub fn requires_comment(&self, from: &TaskStatus, to: &TaskStatus) -> (required: bool)
        ensures
            required == comment_required(*from, *to),
    {
        match (from, to) {
            (TaskStatus::PendingReview, TaskStatus::Completed) => true,
            (_, TaskStatus::Cancelled) => true,
            _ => false,
        }
    }

    /// The role to which the task should be handed after the move.
    pub fn get_next_assignee_role(&self, from: &TaskStatus, to: &TaskStatus) -> (role: Option<
        UserRole,
    >)
        ensures
            role == next_assignee(*from, *to),
    {
        match (from, to) {
            (TaskStatus::InProgress, TaskStatus::PendingReview) => Some(UserRole::Manager),
            _ => None,
        }
    }
}

impl Default for TaskStatusService {
    fn default() -> (service: TaskStatusService) {
        TaskStatusService::new()
    }
}

} // verus!
