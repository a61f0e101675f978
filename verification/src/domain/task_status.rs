//! The lifecycle states of a task and the raw transition relation between them.

use vstd::prelude::*;
use vstd::string::*;
use crate::text::str_eq;

verus! {

/// A lifecycle state. `Pending` is the only initial state; `Completed` and
/// `Cancelled` are terminal.
#[derive(Debug, Clone, Copy, PartialEq, Eq, Hash, Structural)]
pub enum TaskStatus {
    Pending,
    InProgress,
    PendingReview,
    Completed,
    Cancelled,
}

impl TaskStatus {
    /// The name of a status, as it is stored and shown.
    pub open spec fn name(self) -> Seq<char> {
        match self {
            TaskStatus::Pending => "Pending"@,
            TaskStatus::InProgress => "InProgress"@,
            TaskStatus::PendingReview => "PendingReview"@,
            TaskStatus::Completed => "Completed"@,
            TaskStatus::Cancelled => "Cancelled"@,
        }
    }

    /// The statuses that a task may move to from this one.
    pub open spec fn successors(self) -> Set<TaskStatus> {
        match self {
            TaskStatus::Pending => set![TaskStatus::InProgress, TaskStatus::Cancelled],
            TaskStatus::InProgress => set![
                TaskStatus::Completed,
                TaskStatus::PendingReview,
                TaskStatus::Cancelled,
            ],
            TaskStatus::PendingReview => set![TaskStatus::Completed, TaskStatus::Cancelled],
            TaskStatus::Completed => set![],
            TaskStatus::Cancelled => set![],
        }
    }

    /// The raw transition relation: whether `self -> target` is an edge of the
    /// state machine, whatever the priority of the task and the role of the
    /// actor.
    pub open spec fn allows(self, target: TaskStatus) -> bool {
        self.successors().contains(target)
    }

    /// A status that no transition leaves.
    pub open spec fn is_terminal(self) -> bool {
        self == TaskStatus::Completed || self == TaskStatus::Cancelled
    }

    /// A walk through the state machine: each status is followed by one that
    /// the raw relation allows.
    pub open spec fn is_walk(path: Seq<TaskStatus>) -> bool {
        path.len() > 0 && forall|i: int|
            0 <= i < path.len() - 1 ==> (#[trigger] path[i]).allows(path[i + 1])
    }

    /// Whether a walk leads from `Pending`, the initial status, to this one.
    pub open spec fn reachable(self) -> bool {
        exists|path: Seq<TaskStatus>|
            TaskStatus::is_walk(path) && path.first() == TaskStatus::Pending && path.last()
                == self
    }

    /// The message with which `from_str` refuses `s`.
    pub open spec fn invalid_message(s: Seq<char>) -> Seq<char> {
        "Invalid task status: "@ + s
    }

    /// The five statuses in their canonical order.
    pub open spec fn canonical_order() -> Seq<TaskStatus> {
        seq![
            TaskStatus::Pending,
            TaskStatus::InProgress,
            TaskStatus::PendingReview,
            TaskStatus::Completed,
            TaskStatus::Cancelled,
        ]
    }

    /// The message that refuses a move which the raw relation does not allow.
    pub open spec fn invalid_transition_message(from: TaskStatus, to: TaskStatus) -> Seq<char> {
        "Invalid transition from "@ + from.name() + " to "@ + to.name()
    }

    /// The five statuses in their canonical order.
    pub fn all() -> (statuses: Vec<TaskStatus>)
        ensures
            statuses@ == TaskStatus::canonical_order(),
    {
        let statuses = vec![
            TaskStatus::Pending,
            TaskStatus::InProgress,
            TaskStatus::PendingReview,
            TaskStatus::Completed,
            TaskStatus::Cancelled,
        ];
        assert(statuses@ =~= TaskStatus::canonical_order());
        statuses
    }

    /// The message that refuses the move from `self` to `target`.
    pub fn invalid_transition(&self, target: &TaskStatus) -> (message: String)
        ensures
            message@ == TaskStatus::invalid_transition_message(*self, *target),
    {
        String::from_str("Invalid transition from ").concat(self.as_str()).concat(" to ").concat(
            target.as_str(),
        )
    }

    /// The name of the status.
    pub fn as_str(&self) -> (s: &'static str)
        ensures
            s@ == self.name(),
    {
        match self {
            TaskStatus::Pending => "Pending",
            TaskStatus::InProgress => "InProgress",
            TaskStatus::PendingReview => "PendingReview",
            TaskStatus::Completed => "Completed",
            TaskStatus::Cancelled => "Cancelled",
        }
    }

    /// The status named `s`, exactly and with its capitals; any other text is
    /// refused with a message that quotes it.
    pub fn from_str(s: &str) -> (parsed: Result<TaskStatus, String>)
        ensures
            match parsed {
                Ok(status) => s@ == status.name(),
                Err(message) => (forall|status: TaskStatus| s@ != status.name()) && message@
                    == TaskStatus::invalid_message(s@),
            },
    {
        if str_eq(s, "Pending") {
            Ok(TaskStatus::Pending)
        } else if str_eq(s, "InProgress") {
            Ok(TaskStatus::InProgress)
        } else if str_eq(s, "PendingReview") {
            Ok(TaskStatus::PendingReview)
        } else if str_eq(s, "Completed") {
            Ok(TaskStatus::Completed)
        } else if str_eq(s, "Cancelled") {
            Ok(TaskStatus::Cancelled)
        } else {
            Err(String::from_str("Invalid task status: ").concat(s))
        }
    }

    /// Whether the raw relation has the edge from this status to `target`.
    pub fn can_transition_to(&self, target: &TaskStatus) -> (allowed: bool)
        ensures
            allowed == self.allows(*target),
    {
        match (self, target) {
            (TaskStatus::Pending, TaskStatus::InProgress) => true,
            (TaskStatus::Pending, TaskStatus::Cancelled) => true,
            (TaskStatus::InProgress, TaskStatus::Completed) => true,
            (TaskStatus::InProgress, TaskStatus::PendingReview) => true,
            (TaskStatus::InProgress, TaskStatus::Cancelled) => true,
            (TaskStatus::PendingReview, TaskStatus::Completed) => true,
            (TaskStatus::PendingReview, TaskStatus::Cancelled) => true,
            _ => false,
        }
    }

    /// Every status can be reached from `Pending`.
    pub proof fn lemma_every_status_reachable(status: TaskStatus)
        ensures
            status.reachable(),
    {
        let path = match status {
            TaskStatus::Pending => seq![TaskStatus::Pending],
            TaskStatus::InProgress => seq![TaskStatus::Pending, TaskStatus::InProgress],
            TaskStatus::PendingReview => seq![
                TaskStatus::Pending,
                TaskStatus::InProgress,
                TaskStatus::PendingReview,
            ],
            TaskStatus::Completed => seq![
                TaskStatus::Pending,
                TaskStatus::InProgress,
                TaskStatus::Completed,
            ],
            TaskStatus::Cancelled => seq![TaskStatus::Pending, TaskStatus::Cancelled],
        };
        assert(TaskStatus::is_walk(path) && path.first() == TaskStatus::Pending && path.last()
            == status);
    }

    /// A step along an edge leads from a reachable status to a reachable one.
    pub proof fn lemma_step_keeps_reachable(from: TaskStatus, to: TaskStatus)
        requires
            from.reachable(),
            from.allows(to),
        ensures
            to.reachable(),
    {
        let path = choose|path: Seq<TaskStatus>|
            TaskStatus::is_walk(path) && path.first() == TaskStatus::Pending && path.last()
                == from;
        let longer = path.push(to);
        assert forall|i: int| 0 <= i < longer.len() - 1 implies (#[trigger] longer[i]).allows(
            longer[i + 1],
        ) by {
            if i < path.len() - 1 {
                assert(path[i].allows(path[i + 1]));
            }
        }
        assert(TaskStatus::is_walk(longer) && longer.first() == TaskStatus::Pending
            && longer.last() == to);
    }

    /// No two statuses share a name.
    pub proof fn lemma_name_injective(a: TaskStatus, b: TaskStatus)
        requires
            a.name() == b.name(),
        ensures
            a == b,
    {
        reveal_strlit("Pending");
        reveal_strlit("InProgress");
        reveal_strlit("PendingReview");
        reveal_strlit("Completed");
        reveal_strlit("Cancelled");
        assert("Pending"@.len() == 7);
        assert("InProgress"@.len() == 10);
        assert("PendingReview"@.len() == 13);
        assert("Completed"@.len() == 9 && "Completed"@[1] == 'o');
        assert("Cancelled"@.len() == 9 && "Cancelled"@[1] == 'a');
    }

    /// A terminal status has no outgoing edge, not even to itself.
    pub proof fn lemma_terminal_allows_nothing(from: TaskStatus, to: TaskStatus)
        requires
            from.is_terminal(),
        ensures
            !from.allows(to),
    {
    }

    /// No status has an edge to itself.
    pub proof fn lemma_no_self_transition(status: TaskStatus)
        ensures
            !status.allows(status),
    {
    }

    /// The edges of the state machine, one by one: a pair is an edge exactly
    /// when it is one of these seven.
    pub proof fn lemma_transition_table(from: TaskStatus, to: TaskStatus)
        ensures
            from.allows(to) <==> {
                ||| (from == TaskStatus::Pending && to == TaskStatus::InProgress)
                ||| (from == TaskStatus::Pending && to == TaskStatus::Cancelled)
                ||| (from == TaskStatus::InProgress && to == TaskStatus::Completed)
                ||| (from == TaskStatus::InProgress && to == TaskStatus::PendingReview)
                ||| (from == TaskStatus::InProgress && to == TaskStatus::Cancelled)
                ||| (from == TaskStatus::PendingReview && to == TaskStatus::Completed)
                ||| (from == TaskStatus::PendingReview && to == TaskStatus::Cancelled)
            },
    {
    }
}

impl Default for TaskStatus {
    fn default() -> (status: TaskStatus)
        ensures
            status == TaskStatus::Pending,
    {
        TaskStatus::Pending
    }
}

} // verus!
