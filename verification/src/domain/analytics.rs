//! The analytics of one task, reconstructed from its history.

use vstd::prelude::*;
use vstd::string::*;
use crate::domain::status_history::{views, StatusHistory, StatusHistoryView};
use crate::domain::task_status::TaskStatus;
use crate::domain::time::{Duration, Timestamp};

verus! {

/// What the history of a task tells about its life. Nothing of it is
/// stored: it is computed from the history whenever it is asked for.
#[derive(Debug, Clone)]
pub struct TaskAnalytics {
    pub task_id: i32,
    pub total_time_in_progress: Option<Duration>,
    pub time_to_completion: Option<Duration>,
    pub number_of_transitions: usize,
    pub was_approved: bool,
    pub approval_time: Option<Duration>,
    pub created_at: Timestamp,
    pub completed_at: Option<Timestamp>,
}

/// The analytics of a task as plain values: instants and spans in
/// nanoseconds.
pub struct TaskAnalyticsView {
    pub task_id: i32,
    pub total_time_in_progress: Option<int>,
    pub time_to_completion: Option<int>,
    pub number_of_transitions: nat,
    pub was_approved: bool,
    pub approval_time: Option<int>,
    pub created_at: int,
    pub completed_at: Option<int>,
}

/// The span that an optional duration holds.
pub open spec fn span(duration: Option<Duration>) -> Option<int> {
    match duration {
        Some(d) => Some(d@),
        None => None,
    }
}

/// The instant that an optional timestamp holds.
pub open spec fn instant(timestamp: Option<Timestamp>) -> Option<int> {
    match timestamp {
        Some(t) => Some(t@),
        None => None,
    }
}

impl View for TaskAnalytics {
    type V = TaskAnalyticsView;

    open spec fn view(&self) -> TaskAnalyticsView {
        TaskAnalyticsView {
            task_id: self.task_id,
            total_time_in_progress: span(self.total_time_in_progress),
            time_to_completion: span(self.time_to_completion),
            number_of_transitions: self.number_of_transitions as nat,
            was_approved: self.was_approved,
            approval_time: span(self.approval_time),
            created_at: self.created_at@,
            completed_at: instant(self.completed_at),
        }
    }
}

/// What the walk through a history has found so far.
pub struct Progress {
    /// The time spent in `InProgress`, over the intervals closed so far.
    pub time_in_progress: int,
    /// When the open `InProgress` interval began, if one is open.
    pub in_progress_start: Option<int>,
    /// When the task last entered review.
    pub pending_review_start: Option<int>,
    pub time_to_completion: Option<int>,
    pub was_approved: bool,
    pub approval_time: Option<int>,
    /// When the task reached a terminal status. The walk ends there.
    pub completed_at: Option<int>,
}

impl Progress {
    /// The walk before its first record.
    pub open spec fn start() -> Progress {
        Progress {
            time_in_progress: 0,
            in_progress_start: None,
            pending_review_start: None,
            time_to_completion: None,
            was_approved: false,
            approval_time: None,
            completed_at: None,
        }
    }

    /// Whether the walk has met a terminal record and ended.
    pub open spec fn ended(self) -> bool {
        self.completed_at is Some
    }

    /// The time in progress once the open interval, if there is one, is
    /// closed at the instant `at`.
    pub open spec fn closed_at(self, at: int) -> int {
        match self.in_progress_start {
            Some(start) => self.time_in_progress + (at - start),
            None => self.time_in_progress,
        }
    }

    /// The walk after one more record, for a task created at `created_at`.
    pub open spec fn step(self, entry: StatusHistoryView, created_at: int) -> Progress {
        match entry.to_status {
            TaskStatus::Pending => self,
            TaskStatus::InProgress => Progress {
                in_progress_start: Some(entry.changed_at),
                ..self
            },
            TaskStatus::PendingReview => Progress {
                time_in_progress: self.closed_at(entry.changed_at),
                in_progress_start: None,
                pending_review_start: Some(entry.changed_at),
                ..self
            },
            TaskStatus::Completed => Progress {
                time_in_progress: self.closed_at(entry.changed_at),
                in_progress_start: None,
                was_approved: entry.is_approval(),
                approval_time: match self.pending_review_start {
                    Some(start) if entry.is_approval() => Some(entry.changed_at - start),
                    _ => None,
                },
                completed_at: Some(entry.changed_at),
                time_to_completion: Some(entry.changed_at - created_at),
                ..self
            },
            TaskStatus::Cancelled => Progress { completed_at: Some(entry.changed_at), ..self },
        }
    }
}

/// The walk through `entries` from the first record on, which ends at the
/// first record that leads to a terminal status.
pub open spec fn walk(entries: Seq<StatusHistoryView>, created_at: int) -> Progress
    decreases entries.len(),
{
    if entries.len() == 0 {
        Progress::start()
    } else {
        let before = walk(entries.drop_last(), created_at);
        if before.ended() {
            before
        } else {
            before.step(entries.last(), created_at)
        }
    }
}

/// The instant of the first record that has no `from_status`: the creation
/// of the task.
pub open spec fn creation_time(entries: Seq<StatusHistoryView>) -> Option<int>
    decreases entries.len(),
{
    if entries.len() == 0 {
        None
    } else if entries.first().is_initial_creation() {
        Some(entries.first().changed_at)
    } else {
        creation_time(entries.drop_first())
    }
}

/// Whether no record is earlier than one before it.
pub open spec fn is_chronological(entries: Seq<StatusHistoryView>) -> bool {
    forall|i: int, j: int|
        0 <= i <= j < entries.len() ==> (#[trigger] entries[i]).changed_at <= (
        #[trigger] entries[j]).changed_at
}

/// The analytics of the task whose history is `entries`. There are none for
/// an empty history, for one without a record of the creation, and for one
/// whose records are not in the order of their instants.
pub open spec fn analytics_of(entries: Seq<StatusHistoryView>) -> Option<TaskAnalyticsView> {
    if entries.len() == 0 || creation_time(entries) is None || !is_chronological(entries) {
        None
    } else {
        let created_at = creation_time(entries)->0;
        let found = walk(entries, created_at);
        Some(
            TaskAnalyticsView {
                task_id: entries.first().task_id,
                total_time_in_progress: if found.time_in_progress == 0 {
                    None
                } else {
                    Some(found.time_in_progress)
                },
                time_to_completion: found.time_to_completion,
                number_of_transitions: entries.len(),
                was_approved: found.was_approved,
                approval_time: found.approval_time,
                created_at,
                completed_at: found.completed_at,
            },
        )
    }
}

/// What makes a history malformed, in words, or `None` for a history that
/// is empty or well formed: a history that is not empty must hold the record
/// of the creation, and its records must be in the order of their instants.
pub open spec fn history_fault(entries: Seq<StatusHistoryView>) -> Option<Seq<char>> {
    if entries.len() == 0 {
        None
    } else if creation_time(entries) is None {
        Some("Status history has no creation entry"@)
    } else if !is_chronological(entries) {
        Some("Status history is not in chronological order"@)
    } else {
        None
    }
}

/// The walk through a history and one more record.
pub proof fn lemma_walk_push(
    entries: Seq<StatusHistoryView>,
    entry: StatusHistoryView,
    created_at: int,
)
    ensures
        walk(entries.push(entry), created_at) == if walk(entries, created_at).ended() {
            walk(entries, created_at)
        } else {
            walk(entries, created_at).step(entry, created_at)
        },
{
    assert(entries.push(entry).drop_last() =~= entries);
}

/// A walk that has ended takes no notice of the records that follow.
pub proof fn lemma_walk_ends(entries: Seq<StatusHistoryView>, n: int, created_at: int)
    requires
        0 <= n <= entries.len(),
        walk(entries.take(n), created_at).ended(),
    ensures
        walk(entries, created_at) == walk(entries.take(n), created_at),
    decreases entries.len() - n,
{
    if n < entries.len() {
        assert(entries.take(n + 1) =~= entries.take(n).push(entries[n]));
        lemma_walk_push(entries.take(n), entries[n], created_at);
        lemma_walk_ends(entries, n + 1, created_at);
    } else {
        assert(entries.take(n) =~= entries);
    }
}

/// The creation of the task is the first record without a `from_status`.
pub proof fn lemma_creation_time(entries: Seq<StatusHistoryView>, k: int)
    requires
        0 <= k <= entries.len(),
        forall|j: int| 0 <= j < k ==> !(#[trigger] entries[j]).is_initial_creation(),
        k < entries.len() ==> entries[k].is_initial_creation(),
    ensures
        creation_time(entries) == if k < entries.len() {
            Some(entries[k].changed_at)
        } else {
            None
        },
    decreases entries.len(),
{
    if entries.len() > 0 && k > 0 {
        assert(!entries[0].is_initial_creation());
        let rest = entries.drop_first();
        assert forall|j: int| 0 <= j < k - 1 implies !(#[trigger] rest[j]).is_initial_creation() by {
            assert(rest[j] == entries[j + 1]);
        }
        if k < entries.len() {
            assert(rest[k - 1] == entries[k]);
        }
        lemma_creation_time(rest, k - 1);
    }
}

/// What every walk has found, wherever it stands: an approval time only
/// with an approval, an approval only with a completion, a completion only
/// at the end of the walk, and no open interval after the end of a walk that
/// ended in a completion.
pub proof fn lemma_walk_consistent(entries: Seq<StatusHistoryView>, created_at: int)
    ensures
        walk(entries, created_at).approval_time is Some ==> walk(entries, created_at).was_approved,
        walk(entries, created_at).was_approved ==> walk(entries, created_at).time_to_completion
            is Some,
        walk(entries, created_at).time_to_completion is Some ==> walk(entries, created_at).ended(),
        walk(entries, created_at).time_to_completion matches Some(elapsed) ==> elapsed == walk(
            entries,
            created_at,
        ).completed_at->0 - created_at,
    decreases entries.len(),
{
    if entries.len() > 0 {
        lemma_walk_consistent(entries.drop_last(), created_at);
    }
}

/// In a history in the order of its instants no interval is negative, and
/// so neither is the time in progress.
pub proof fn lemma_time_in_progress_not_negative(
    entries: Seq<StatusHistoryView>,
    created_at: int,
)
    requires
        is_chronological(entries),
    ensures
        walk(entries, created_at).time_in_progress >= 0,
        walk(entries, created_at).in_progress_start matches Some(start) ==> entries.len() > 0
            && start <= entries.last().changed_at,
    decreases entries.len(),
{
    if entries.len() > 0 {
        let shorter = entries.drop_last();
        assert forall|i: int, j: int| 0 <= i <= j < shorter.len() implies (
        #[trigger] shorter[i]).changed_at <= (#[trigger] shorter[j]).changed_at by {
            assert(entries[i].changed_at <= entries[j].changed_at);
        }
        lemma_time_in_progress_not_negative(shorter, created_at);
        if shorter.len() > 0 {
            assert(entries[shorter.len() - 1].changed_at <= entries[entries.len() - 1].changed_at);
        }
    }
}

/// The history of a task that was created and not touched since: one
/// record, no durations, no approval, no completion.
pub proof fn lemma_creation_only(creation: StatusHistoryView)
    requires
        creation.is_initial_creation(),
        creation.to_status == TaskStatus::Pending,
    ensures
        analytics_of(seq![creation]) == Some(
            TaskAnalyticsView {
                task_id: creation.task_id,
                total_time_in_progress: None,
                time_to_completion: None,
                number_of_transitions: 1,
                was_approved: false,
                approval_time: None,
                created_at: creation.changed_at,
                completed_at: None,
            },
        ),
{
    let entries = seq![creation];
    assert(entries =~= Seq::<StatusHistoryView>::empty().push(creation));
    lemma_walk_push(Seq::empty(), creation, creation.changed_at);
}

/// A task that was created, started and completed without a review: the
/// time in progress runs from the start to the completion, the time to
/// completion from the creation to the completion, and nothing was approved.
pub proof fn lemma_direct_completion(
    creation: StatusHistoryView,
    started: StatusHistoryView,
    completed: StatusHistoryView,
)
    requires
        creation.is_initial_creation(),
        creation.to_status == TaskStatus::Pending,
        started.to_status == TaskStatus::InProgress,
        completed.to_status == TaskStatus::Completed,
        !completed.is_approval(),
        creation.changed_at <= started.changed_at <= completed.changed_at,
    ensures
        analytics_of(seq![creation, started, completed]) == Some(
            TaskAnalyticsView {
                task_id: creation.task_id,
                total_time_in_progress: if completed.changed_at == started.changed_at {
                    None
                } else {
                    Some(completed.changed_at - started.changed_at)
                },
                time_to_completion: Some(completed.changed_at - creation.changed_at),
                number_of_transitions: 3,
                was_approved: false,
                approval_time: None,
                created_at: creation.changed_at,
                completed_at: Some(completed.changed_at),
            },
        ),
{
    let created_at = creation.changed_at;
    let none = Seq::<StatusHistoryView>::empty();
    let entries = seq![creation, started, completed];
    assert(entries =~= none.push(creation).push(started).push(completed));
    lemma_walk_push(none, creation, created_at);
    lemma_walk_push(none.push(creation), started, created_at);
    lemma_walk_push(none.push(creation).push(started), completed, created_at);
}

/// A task that was created, started, sent to review and approved: the time
/// in progress runs from the start to the review, the approval time from the
/// review to the approval, and the time to completion from the creation to
/// the approval.
pub proof fn lemma_approved_completion(
    creation: StatusHistoryView,
    started: StatusHistoryView,
    reviewed: StatusHistoryView,
    approved: StatusHistoryView,
)
    requires
        creation.is_initial_creation(),
        creation.to_status == TaskStatus::Pending,
        started.to_status == TaskStatus::InProgress,
        reviewed.to_status == TaskStatus::PendingReview,
        approved.is_approval(),
        creation.changed_at <= started.changed_at <= reviewed.changed_at <= approved.changed_at,
    ensures
        analytics_of(seq![creation, started, reviewed, approved]) == Some(
            TaskAnalyticsView {
                task_id: creation.task_id,
                total_time_in_progress: if reviewed.changed_at == started.changed_at {
                    None
                } else {
                    Some(reviewed.changed_at - started.changed_at)
                },
                time_to_completion: Some(approved.changed_at - creation.changed_at),
                number_of_transitions: 4,
                was_approved: true,
                approval_time: Some(approved.changed_at - reviewed.changed_at),
                created_at: creation.changed_at,
                completed_at: Some(approved.changed_at),
            },
        ),
{
    let created_at = creation.changed_at;
    let none = Seq::<StatusHistoryView>::empty();
    let entries = seq![creation, started, reviewed, approved];
    assert(entries =~= none.push(creation).push(started).push(reviewed).push(approved));
    lemma_walk_push(none, creation, created_at);
    lemma_walk_push(none.push(creation), started, created_at);
    lemma_walk_push(none.push(creation).push(started), reviewed, created_at);
    lemma_walk_push(none.push(creation).push(started).push(reviewed), approved, created_at);
}

/// A task that was created, started and cancelled: it ended at the
/// cancellation, was never completed nor approved, and the interval that
/// the cancellation cut short counts for nothing.
pub proof fn lemma_cancellation(
    creation: StatusHistoryView,
    started: StatusHistoryView,
    cancelled: StatusHistoryView,
)
    requires
        creation.is_initial_creation(),
        creation.to_status == TaskStatus::Pending,
        started.to_status == TaskStatus::InProgress,
        cancelled.to_status == TaskStatus::Cancelled,
        creation.changed_at <= started.changed_at <= cancelled.changed_at,
    ensures
        analytics_of(seq![creation, started, cancelled]) == Some(
            TaskAnalyticsView {
                task_id: creation.task_id,
                total_time_in_progress: None,
                time_to_completion: None,
                number_of_transitions: 3,
                was_approved: false,
                approval_time: None,
                created_at: creation.changed_at,
                completed_at: Some(cancelled.changed_at),
            },
        ),
{
    let created_at = creation.changed_at;
    let none = Seq::<StatusHistoryView>::empty();
    let entries = seq![creation, started, cancelled];
    assert(entries =~= none.push(creation).push(started).push(cancelled));
    lemma_walk_push(none, creation, created_at);
    lemma_walk_push(none.push(creation), started, created_at);
    lemma_walk_push(none.push(creation).push(started), cancelled, created_at);
}

/// The records after the first terminal one change nothing but the count of
/// the transitions, which is that of the whole history.
pub proof fn lemma_records_after_the_end(entries: Seq<StatusHistoryView>, n: int)
    requires
        0 < n <= entries.len(),
        analytics_of(entries.take(n)) is Some,
        analytics_of(entries.take(n))->0.completed_at is Some,
        is_chronological(entries),
    ensures
        analytics_of(entries) == Some(
            TaskAnalyticsView {
                number_of_transitions: entries.len(),
                ..analytics_of(entries.take(n))->0
            },
        ),
{
    let shorter = entries.take(n);
    lemma_creation_time_of_prefix(entries, n);
    lemma_walk_ends(entries, n, creation_time(entries)->0);
}

/// The creation that a part of a history shows is the creation that the
/// whole history shows.
pub proof fn lemma_creation_time_of_prefix(entries: Seq<StatusHistoryView>, n: int)
    requires
        0 <= n <= entries.len(),
        creation_time(entries.take(n)) is Some,
    ensures
        creation_time(entries) == creation_time(entries.take(n)),
    decreases n,
{
    let shorter = entries.take(n);
    if n > 0 {
        assert(shorter.first() == entries.first());
        if !entries.first().is_initial_creation() {
            assert(shorter.drop_first() =~= entries.drop_first().take(n - 1));
            lemma_creation_time_of_prefix(entries.drop_first(), n - 1);
        }
    }
}

/// The bound that keeps the sum of the intervals within a duration: in a
/// history in the order of its instants, the intervals closed so far fit
/// between the first record and the open interval, or the last record read.
spec fn within_bounds(
    entries: Seq<StatusHistoryView>,
    read: int,
    time_in_progress: int,
    in_progress_start: Option<int>,
) -> bool {
    &&& 0 <= time_in_progress
    &&& match in_progress_start {
        Some(start) => {
            &&& read > 0
            &&& entries[0].changed_at <= start <= entries[read - 1].changed_at
            &&& time_in_progress <= start - entries[0].changed_at
        },
        None => if read == 0 {
            time_in_progress == 0
        } else {
            time_in_progress <= entries[read - 1].changed_at - entries[0].changed_at
        },
    }
}

/// Whether the values that `from_history` holds are those of the walk.
spec fn holds(
    found: Progress,
    time_in_progress: Duration,
    in_progress_start: Option<Timestamp>,
    pending_review_start: Option<Timestamp>,
    time_to_completion: Option<Duration>,
    was_approved: bool,
    approval_time: Option<Duration>,
    completed_at: Option<Timestamp>,
) -> bool {
    found == (Progress {
        time_in_progress: time_in_progress@,
        in_progress_start: instant(in_progress_start),
        pending_review_start: instant(pending_review_start),
        time_to_completion: span(time_to_completion),
        was_approved,
        approval_time: span(approval_time),
        completed_at: instant(completed_at),
    })
}

impl TaskAnalytics {
    /// The instant of the first record of `history` that has no
    /// `from_status`.
    pub fn creation_time(history: &Vec<StatusHistory>) -> (created_at: Option<Timestamp>)
        ensures
            instant(created_at) == creation_time(views(history@)),
    {
        let ghost entries = views(history@);
        let mut i: usize = 0;
        while i < history.len()
            invariant
                i <= history.len(),
                entries == views(history@),
                forall|j: int| 0 <= j < i ==> !(#[trigger] entries[j]).is_initial_creation(),
            decreases history.len() - i,
        {
            if history[i].is_initial_creation() {
                proof {
                    lemma_creation_time(entries, i as int);
                }
                return Some(history[i].changed_at);
            }
            i = i + 1;
        }
        proof {
            lemma_creation_time(entries, i as int);
        }
        None
    }

    /// Whether no record of `history` is earlier than one before it.
    pub fn is_chronological(history: &Vec<StatusHistory>) -> (ordered: bool)
        ensures
            ordered == is_chronological(views(history@)),
    {
        let ghost entries = views(history@);
        if history.len() < 2 {
            return true;
        }
        let mut i: usize = 1;
        while i < history.len()
            invariant
                1 <= i <= history.len(),
                entries == views(history@),
                is_chronological(entries.take(i as int)),
            decreases history.len() - i,
        {
            if !history[i - 1].changed_at.is_at_or_before(&history[i].changed_at) {
                assert(entries[i - 1].changed_at > entries[i as int].changed_at);
                return false;
            }
            proof {
                let longer = entries.take(i + 1);
                let shorter = entries.take(i as int);
                assert forall|a: int, b: int| 0 <= a <= b < longer.len() implies (
                #[trigger] longer[a]).changed_at <= (#[trigger] longer[b]).changed_at by {
                    if b < i {
                        assert(shorter[a].changed_at <= shorter[b].changed_at);
                    } else if a < i {
                        assert(shorter[a].changed_at <= shorter[i - 1].changed_at);
                    }
                }
            }
            i = i + 1;
        }
        assert(entries.take(i as int) =~= entries);
        true
    }

    /// Reconstructs the analytics of a task from its history, and tells a
    /// malformed history from an empty one: an empty history has no
    /// analytics, a malformed one is an error.
    pub fn try_from_history(history: Vec<StatusHistory>) -> (analytics: Result<
        Option<TaskAnalytics>,
        String,
    >)
        ensures
            match analytics {
                Ok(Some(found)) => history_fault(views(history@)) is None && analytics_of(
                    views(history@),
                ) == Some(found@),
                Ok(None) => history@.len() == 0,
                Err(message) => history_fault(views(history@)) == Some(message@),
            },
    {
        if history.len() == 0 {
            return Ok(None);
        }
        if TaskAnalytics::creation_time(&history).is_none() {
            return Err(String::from_str("Status history has no creation entry"));
        }
        if !TaskAnalytics::is_chronological(&history) {
            return Err(String::from_str("Status history is not in chronological order"));
        }
        Ok(TaskAnalytics::from_history(history))
    }

    /// Reconstructs the analytics of a task from its history, read from the
    /// first record on. There are none for an empty history and for a
    /// malformed one.
    pub fn from_history(history: Vec<StatusHistory>) -> (analytics: Option<TaskAnalytics>)
        ensures
            match analytics {
                Some(found) => analytics_of(views(history@)) == Some(found@),
                None => analytics_of(views(history@)) is None,
            },
    {
        let ghost entries = views(history@);
        if history.len() == 0 {
            return None;
        }
        let task_id = history[0].task_id;
        let created_at = match TaskAnalytics::creation_time(&history) {
            Some(at) => at,
            None => {
                return None;
            },
        };
        if !TaskAnalytics::is_chronological(&history) {
            return None;
        }
        let first_at = history[0].changed_at;
        let mut time_in_progress = Duration::zero();
        let mut in_progress_start: Option<Timestamp> = None;
        let mut pending_review_start: Option<Timestamp> = None;
        let mut time_to_completion: Option<Duration> = None;
        let mut was_approved = false;
        let mut approval_time: Option<Duration> = None;
        let mut completed_at: Option<Timestamp> = None;
        let mut i: usize = 0;
        proof {
            assert(entries.take(0) =~= Seq::<StatusHistoryView>::empty());
        }
        while i < history.len() && completed_at.is_none()
            invariant
                i <= history.len(),
                entries == views(history@),
                is_chronological(entries),
                first_at == history[0].changed_at,
                holds(
                    walk(entries.take(i as int), created_at@),
                    time_in_progress,
                    in_progress_start,
                    pending_review_start,
                    time_to_completion,
                    was_approved,
                    approval_time,
                    completed_at,
                ),
                within_bounds(entries, i as int, time_in_progress@, instant(in_progress_start)),
                completed_at is None ==> !was_approved && approval_time is None
                    && time_to_completion is None,
            decreases history.len() - i,
        {
            let entry = &history[i];
            let at = entry.changed_at;
            proof {
                use_type_invariant(&at);
                use_type_invariant(&first_at);
                assert(entries.take(i + 1) =~= entries.take(i as int).push(entries[i as int]));
                lemma_walk_push(entries.take(i as int), entries[i as int], created_at@);
                assert(entries[i as int] == entry@);
                assert(entries[0].changed_at <= entries[i as int].changed_at);
                if i > 0 {
                    assert(entries[i - 1].changed_at <= entries[i as int].changed_at);
                }
            }
            match entry.to_status {
                TaskStatus::Pending => {},
                TaskStatus::InProgress => {
                    in_progress_start = Some(at);
                },
                TaskStatus::PendingReview => {
                    if let Some(start) = in_progress_start {
                        time_in_progress = time_in_progress.plus(&at.duration_since(&start));
                    }
                    in_progress_start = None;
                    pending_review_start = Some(at);
                },
                TaskStatus::Completed => {
                    if let Some(start) = in_progress_start {
                        time_in_progress = time_in_progress.plus(&at.duration_since(&start));
                    }
                    in_progress_start = None;
                    if entry.is_approval() {
                        was_approved = true;
                        if let Some(review_start) = pending_review_start {
                            approval_time = Some(at.duration_since(&review_start));
                        }
                    }
                    completed_at = Some(at);
                    time_to_completion = Some(at.duration_since(&created_at));
                },
                TaskStatus::Cancelled => {
                    completed_at = Some(at);
                },
            }
            i = i + 1;
        }
        proof {
            if i < history.len() {
                lemma_walk_ends(entries, i as int, created_at@);
            } else {
                assert(entries.take(i as int) =~= entries);
            }
        }
        Some(
            TaskAnalytics {
                task_id,
                total_time_in_progress: if time_in_progress.is_zero() {
                    None
                } else {
                    Some(time_in_progress)
                },
                time_to_completion,
                number_of_transitions: history.len(),
                was_approved,
                approval_time,
                created_at,
                completed_at,
            },
        )
    }
}

} // verus!
