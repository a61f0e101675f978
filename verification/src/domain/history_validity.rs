//! The histories that the state machine can produce, and what the analytics
//! of such a history are.

use vstd::prelude::*;
use crate::domain::analytics::{
    analytics_of,
    is_chronological,
    lemma_creation_time,
    lemma_walk_push,
    TaskAnalytics,
};
use crate::domain::status_history::{views, StatusHistory, StatusHistoryView};
use crate::domain::task_status::TaskStatus;

verus! {

/// Whether the record `next` can follow the record `previous` in the
/// history of a task: it is of the same task, leaves the status that
/// `previous` entered, and moves along an edge of the state machine.
pub open spec fn follows(previous: StatusHistoryView, next: StatusHistoryView) -> bool {
    &&& next.task_id == previous.task_id
    &&& next.from_status == Some(previous.to_status)
    &&& previous.to_status.allows(next.to_status)
}

/// Whether `entries` is the history of a task as the state machine
/// produces it: first the record of the creation, which enters `Pending`;
/// then records that each follow the one before; all in the order of their
/// instants.
pub open spec fn is_valid_history(entries: Seq<StatusHistoryView>) -> bool {
    &&& entries.len() > 0
    &&& entries.first().is_initial_creation()
    &&& entries.first().to_status == TaskStatus::Pending
    &&& forall|i: int| 0 < i < entries.len() ==> follows(entries[i - 1], #[trigger] entries[i])
    &&& is_chronological(entries)
}

/// The time that the task of a valid history spent in progress and that
/// counts: the time from the start of the work, which is the second
/// record, to the third record, where that sends the task to review or
/// completes it.
pub open spec fn counted_time_in_progress(entries: Seq<StatusHistoryView>) -> int {
    if entries.len() >= 3 && entries[1].to_status == TaskStatus::InProgress && (
    entries[2].to_status == TaskStatus::PendingReview || entries[2].to_status
        == TaskStatus::Completed) {
        entries[2].changed_at - entries[1].changed_at
    } else {
        0
    }
}

/// A valid history is short: the state machine has no walk of more than
/// four statuses, and none that goes on after a terminal status.
pub proof fn lemma_valid_history_is_short(entries: Seq<StatusHistoryView>)
    requires
        is_valid_history(entries),
    ensures
        entries.len() <= 4,
        forall|i: int| 0 <= i < entries.len() - 1 ==> !(#[trigger] entries[i]).to_status.is_terminal(),
{
    assert forall|i: int| 0 <= i < entries.len() - 1 implies !(
    #[trigger] entries[i]).to_status.is_terminal() by {
        assert(follows(entries[i], entries[i + 1]));
    }
    if entries.len() >= 2 {
        assert(follows(entries[0], entries[1]));
    }
    if entries.len() >= 3 {
        assert(follows(entries[1], entries[2]));
    }
    if entries.len() >= 4 {
        assert(follows(entries[2], entries[3]));
    }
    if entries.len() >= 5 {
        assert(follows(entries[3], entries[4]));
    }
}

/// The analytics of a valid history. The task was created at the first
/// record. It ended at the last record, where that enters a terminal
/// status, and not before; it was completed where that status is
/// `Completed`, and approved where the last record is an approval, which
/// then took the time since the record before. The time in progress is the
/// time from the start of the work to the record that sent the task to
/// review or completed it; work that is cancelled while in progress counts
/// for nothing.
pub proof fn lemma_analytics_of_valid_history(entries: Seq<StatusHistoryView>)
    requires
        is_valid_history(entries),
    ensures
        analytics_of(entries) matches Some(found) && {
            let last = entries.last();
            &&& found.task_id == entries.first().task_id
            &&& found.created_at == entries.first().changed_at
            &&& found.number_of_transitions == entries.len()
            &&& found.completed_at == if last.to_status.is_terminal() {
                Some(last.changed_at)
            } else {
                None
            }
            &&& found.time_to_completion == if last.to_status == TaskStatus::Completed {
                Some(last.changed_at - entries.first().changed_at)
            } else {
                None
            }
            &&& found.was_approved == last.is_approval()
            &&& found.approval_time == if last.is_approval() {
                Some(last.changed_at - entries[entries.len() - 2].changed_at)
            } else {
                None
            }
            &&& found.total_time_in_progress == if counted_time_in_progress(entries) == 0 {
                None
            } else {
                Some(counted_time_in_progress(entries))
            }
        },
{
    lemma_valid_history_is_short(entries);
    lemma_creation_time(entries, 0);
    let created_at = entries.first().changed_at;
    let none = Seq::<StatusHistoryView>::empty();
    lemma_walk_push(none, entries[0], created_at);
    if entries.len() == 1 {
        assert(entries =~= none.push(entries[0]));
    } else {
        assert(follows(entries[0], entries[1]));
        lemma_walk_push(none.push(entries[0]), entries[1], created_at);
        if entries.len() == 2 {
            assert(entries =~= none.push(entries[0]).push(entries[1]));
        } else {
            assert(follows(entries[1], entries[2]));
            lemma_walk_push(none.push(entries[0]).push(entries[1]), entries[2], created_at);
            if entries.len() == 3 {
                assert(entries =~= none.push(entries[0]).push(entries[1]).push(entries[2]));
            } else {
                assert(follows(entries[2], entries[3]));
                lemma_walk_push(
                    none.push(entries[0]).push(entries[1]).push(entries[2]),
                    entries[3],
                    created_at,
                );
                assert(entries =~= none.push(entries[0]).push(entries[1]).push(entries[2]).push(
                    entries[3],
                ));
            }
        }
    }
}

impl TaskAnalytics {
    /// Whether `history` is the history of a task as the state machine
    /// produces it.
    pub fn is_valid_history(history: &Vec<StatusHistory>) -> (valid: bool)
        ensures
            valid == is_valid_history(views(history@)),
    {
        let ghost entries = views(history@);
        if history.len() == 0 {
            return false;
        }
        if !history[0].is_initial_creation() || history[0].to_status != TaskStatus::Pending {
            return false;
        }
        if !TaskAnalytics::is_chronological(history) {
            return false;
        }
        let mut i: usize = 1;
        while i < history.len()
            invariant
                1 <= i <= history.len(),
                entries == views(history@),
                forall|j: int| 0 < j < i ==> follows(entries[j - 1], #[trigger] entries[j]),
            decreases history.len() - i,
        {
            let previous = &history[i - 1];
            let next = &history[i];
            let linked = match next.from_status {
                Some(status) => status == previous.to_status,
                None => false,
            };
            if next.task_id != previous.task_id || !linked || !previous.to_status.can_transition_to(
                &next.to_status,
            ) {
                assert(!follows(entries[i - 1], entries[i as int]));
                return false;
            }
            i = i + 1;
        }
        true
    }
}

} // verus!
