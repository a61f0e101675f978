//! Putting the records of a history in the order of their instants, for a
//! source that does not keep that order itself.

use vstd::prelude::*;
use crate::domain::analytics::{analytics_of, is_chronological, TaskAnalytics};
use crate::domain::status_history::{views, StatusHistory, StatusHistoryView};

verus! {

/// Where a record of the instant `at` goes into `sorted`: behind the last
/// record that is not later than it.
pub open spec fn insertion_index(sorted: Seq<StatusHistoryView>, at: int) -> int
    decreases sorted.len(),
{
    if sorted.len() == 0 || sorted.last().changed_at <= at {
        sorted.len() as int
    } else {
        insertion_index(sorted.drop_last(), at)
    }
}

/// The records of `entries` in the order of their instants. Records of one
/// instant keep the order in which they came.
pub open spec fn in_time_order(entries: Seq<StatusHistoryView>) -> Seq<StatusHistoryView>
    decreases entries.len(),
{
    if entries.len() == 0 {
        entries
    } else {
        let sorted = in_time_order(entries.drop_last());
        sorted.insert(insertion_index(sorted, entries.last().changed_at), entries.last())
    }
}

/// The insertion index is the one index before which a record is not later
/// than `at`, where there is a record before it, and from which on all
/// records are later.
pub proof fn lemma_insertion_index(sorted: Seq<StatusHistoryView>, at: int, index: int)
    requires
        0 <= index <= sorted.len(),
        forall|j: int| index <= j < sorted.len() ==> (#[trigger] sorted[j]).changed_at > at,
        index > 0 ==> sorted[index - 1].changed_at <= at,
    ensures
        insertion_index(sorted, at) == index,
    decreases sorted.len(),
{
    if sorted.len() > 0 && index < sorted.len() {
        assert(sorted.last().changed_at > at);
        let shorter = sorted.drop_last();
        assert forall|j: int| index <= j < shorter.len() implies (
        #[trigger] shorter[j]).changed_at > at by {
            assert(shorter[j] == sorted[j]);
        }
        if index > 0 {
            assert(shorter[index - 1] == sorted[index - 1]);
        }
        lemma_insertion_index(shorter, at, index);
    }
}

/// What the insertion index is, read the other way round.
pub proof fn lemma_insertion_index_bounds(sorted: Seq<StatusHistoryView>, at: int)
    ensures
        0 <= insertion_index(sorted, at) <= sorted.len(),
        forall|j: int|
            insertion_index(sorted, at) <= j < sorted.len() ==> (#[trigger] sorted[j]).changed_at
                > at,
        insertion_index(sorted, at) > 0 ==> sorted[insertion_index(sorted, at) - 1].changed_at
            <= at,
    decreases sorted.len(),
{
    if sorted.len() > 0 && sorted.last().changed_at > at {
        let shorter = sorted.drop_last();
        lemma_insertion_index_bounds(shorter, at);
        let index = insertion_index(shorter, at);
        assert forall|j: int| index <= j < sorted.len() implies (#[trigger] sorted[j]).changed_at
            > at by {
            if j < shorter.len() {
                assert(shorter[j] == sorted[j]);
            }
        }
        if index > 0 {
            assert(shorter[index - 1] == sorted[index - 1]);
        }
    }
}

/// The records in time order are in the order of their instants.
pub proof fn lemma_in_time_order_is_chronological(entries: Seq<StatusHistoryView>)
    ensures
        is_chronological(in_time_order(entries)),
        in_time_order(entries).len() == entries.len(),
    decreases entries.len(),
{
    if entries.len() > 0 {
        let sorted = in_time_order(entries.drop_last());
        let entry = entries.last();
        let index = insertion_index(sorted, entry.changed_at);
        lemma_in_time_order_is_chronological(entries.drop_last());
        lemma_insertion_index_bounds(sorted, entry.changed_at);
        let longer = sorted.insert(index, entry);
        assert forall|i: int, j: int| 0 <= i <= j < longer.len() implies (
        #[trigger] longer[i]).changed_at <= (#[trigger] longer[j]).changed_at by {
            let a = if i < index {
                i
            } else {
                i - 1
            };
            let b = if j < index {
                j
            } else {
                j - 1
            };
            if i == index {
                if j > index {
                    assert(longer[j] == sorted[j - 1]);
                }
            } else if j == index {
                assert(longer[i] == sorted[i]);
                if index > 0 {
                    assert(sorted[i].changed_at <= sorted[index - 1].changed_at);
                }
            } else {
                assert(longer[i] == sorted[a]);
                assert(longer[j] == sorted[b]);
                assert(sorted[a].changed_at <= sorted[b].changed_at);
            }
        }
    }
}

/// The records in time order are the records that came, each as often as
/// it came.
pub proof fn lemma_in_time_order_keeps_the_records(entries: Seq<StatusHistoryView>)
    ensures
        in_time_order(entries).to_multiset() == entries.to_multiset(),
    decreases entries.len(),
{
    broadcast use vstd::seq_lib::group_to_multiset_ensures;

    if entries.len() > 0 {
        let shorter = entries.drop_last();
        let sorted = in_time_order(shorter);
        let entry = entries.last();
        let index = insertion_index(sorted, entry.changed_at);
        lemma_in_time_order_keeps_the_records(shorter);
        lemma_in_time_order_is_chronological(shorter);
        lemma_insertion_index_bounds(sorted, entry.changed_at);
        assert(entries =~= shorter.push(entry));
        assert(sorted.insert(index, entry).to_multiset() == sorted.to_multiset().insert(entry));
        assert(shorter.push(entry).to_multiset() == shorter.to_multiset().insert(entry));
    }
}

/// A history that is in the order of its instants stays as it is.
pub proof fn lemma_in_time_order_of_chronological(entries: Seq<StatusHistoryView>)
    requires
        is_chronological(entries),
    ensures
        in_time_order(entries) == entries,
    decreases entries.len(),
{
    if entries.len() > 0 {
        let shorter = entries.drop_last();
        assert forall|i: int, j: int| 0 <= i <= j < shorter.len() implies (
        #[trigger] shorter[i]).changed_at <= (#[trigger] shorter[j]).changed_at by {
            assert(entries[i].changed_at <= entries[j].changed_at);
        }
        lemma_in_time_order_of_chronological(shorter);
        if shorter.len() > 0 {
            assert(shorter.last() == entries[shorter.len() - 1]);
            assert(entries[shorter.len() - 1].changed_at <= entries[entries.len() - 1].changed_at);
        }
        assert(insertion_index(shorter, entries.last().changed_at) == shorter.len());
        assert(shorter.insert(shorter.len() as int, entries.last()) =~= entries);
    }
}

/// Puts the records of `history` in the order of their instants. Records
/// of one instant keep the order in which they came.
pub fn sort_history(history: Vec<StatusHistory>) -> (sorted: Vec<StatusHistory>)
    ensures
        views(sorted@) == in_time_order(views(history@)),
{
    let ghost all = views(history@);
    let mut sorted: Vec<StatusHistory> = Vec::new();
    proof {
        assert(all.take(0) =~= Seq::<StatusHistoryView>::empty());
        assert(views(sorted@) =~= Seq::<StatusHistoryView>::empty());
    }
    for entry in it: history.into_iter()
        invariant
            views(it.seq()) == all,
            views(sorted@) == in_time_order(all.take(it.index() as int)),
    {
        let ghost done = views(sorted@);
        let mut index: usize = sorted.len();
        while index > 0 && !sorted[index - 1].changed_at.is_at_or_before(&entry.changed_at)
            invariant
                index <= sorted.len(),
                done == views(sorted@),
                forall|j: int|
                    index <= j < done.len() ==> (#[trigger] done[j]).changed_at
                        > entry@.changed_at,
            decreases index,
        {
            index = index - 1;
        }
        proof {
            lemma_insertion_index(done, entry@.changed_at, index as int);
            assert(all.take(it.index() + 1).drop_last() =~= all.take(it.index() as int));
            assert(all.take(it.index() + 1).last() == entry@);
            assert(views(sorted@.insert(index as int, entry)) =~= done.insert(
                index as int,
                entry@,
            ));
        }
        sorted.insert(index, entry);
    }
    proof {
        assert(all.take(all.len() as int) =~= all);
    }
    sorted
}

impl TaskAnalytics {
    /// Reconstructs the analytics of a task from a history whose source
    /// does not keep the order of the instants: the records are put in that
    /// order first.
    pub fn from_unordered_history(history: Vec<StatusHistory>) -> (analytics: Option<
        TaskAnalytics,
    >)
        ensures
            match analytics {
                Some(found) => analytics_of(in_time_order(views(history@))) == Some(found@),
                None => analytics_of(in_time_order(views(history@))) is None,
            },
    {
        TaskAnalytics::from_history(sort_history(history))
    }
}

} // verus!
