//! What a store of tasks and of history records computes between reading
//! and writing: values from the columns of a row, ids from text, and the
//! outcome of a write from the count of the rows that it changed.

use vstd::prelude::*;
use vstd::string::*;
use crate::domain::analytics::{
    analytics_of,
    history_fault,
    TaskAnalytics,
    TaskAnalyticsView,
};
use crate::domain::repository_error::{task_not_found, RepositoryError};
use crate::domain::status_history::{views, StatusHistory};
use crate::domain::task::{Task, TaskView};
use crate::domain::task_domain_service::task_error;
use crate::domain::task_id::TaskId;
use crate::domain::task_status::TaskStatus;
use crate::domain::time::Timestamp;
use crate::domain::user_role::UserRole;
use crate::text::{text_of, trimmed};

verus! {

/// `uuid::Uuid`, a UUID. Nothing is known of its value.
#[verifier::external_type_specification]
#[verifier::external_body]
pub struct ExUuid(uuid::Uuid);

/// `uuid::Error`, the reason for which a text is no UUID. Nothing is known
/// of its value.
#[verifier::external_type_specification]
#[verifier::external_body]
pub struct ExUuidError(uuid::Error);

/// Whether `uuid::Uuid::parse_str` reads `text` as a UUID.
pub uninterp spec fn is_uuid_text(text: Seq<char>) -> bool;

/// Reads a UUID with `uuid::Uuid::parse_str`. Whether the text is read
/// depends on the text alone; which texts are read is for the parser to
/// say, and is named `is_uuid_text`.
#[verifier::external_body]
fn parse_uuid(text: &str) -> (parsed: Result<uuid::Uuid, uuid::Error>)
    ensures
        parsed is Ok <==> is_uuid_text(text@),
{
    uuid::Uuid::parse_str(text)
}

/// The words in which `uuid::Error` describes itself (its `Display`).
/// Nothing is claimed of them.
#[verifier::external_body]
fn describe_uuid_error(error: &uuid::Error) -> (words: String) {
    error.to_string()
}

/// Whether `text` starts with `prefix`.
pub open spec fn starts_with(text: Seq<char>, prefix: Seq<char>) -> bool {
    text.len() >= prefix.len() && text.subrange(0, prefix.len() as int) == prefix
}

/// The error that refuses a text as the id of a history record, with the
/// words of the parser.
pub fn invalid_uuid(words: &str) -> (error: RepositoryError)
    ensures
        error matches RepositoryError::ValidationError(message) && message@ == "Invalid UUID: "@
            + words@,
{
    RepositoryError::ValidationError(String::from_str("Invalid UUID: ").concat(words))
}

/// The UUID that the id of a history record writes. A text that writes
/// none is a validation error, whose message starts with `Invalid UUID: `.
pub fn parse_history_id(id: &str) -> (parsed: Result<uuid::Uuid, RepositoryError>)
    ensures
        parsed is Ok <==> is_uuid_text(id@),
        parsed matches Err(error) ==> (error matches RepositoryError::ValidationError(message)
            && starts_with(message@, "Invalid UUID: "@)),
{
    match parse_uuid(id) {
        Ok(uuid) => Ok(uuid),
        Err(error) => {
            let words = describe_uuid_error(&error);
            let refusal = invalid_uuid(words.as_str());
            proof {
                let prefix = "Invalid UUID: "@;
                assert((prefix + words@).subrange(0, prefix.len() as int) =~= prefix);
            }
            Err(refusal)
        },
    }
}

/// Whether `error` is a validation error with the message `message`.
pub open spec fn is_invalid(error: RepositoryError, message: Seq<char>) -> bool {
    error matches RepositoryError::ValidationError(text) && text@ == message
}

/// The task that a row of the table of tasks holds. The status must be the
/// name of a status, and the name and the priority those of a task.
pub fn row_to_task(
    task_id: i32,
    name: String,
    priority: Option<i32>,
    status: &str,
    created_at: Timestamp,
    updated_at: Timestamp,
) -> (read: Result<Task, RepositoryError>)
    ensures
        match read {
            Ok(task) => {
                &&& status@ == task.status.name()
                &&& task_error(name@, priority) is None
                &&& task@ == (TaskView {
                    id: task_id,
                    name: trimmed(name@),
                    priority,
                    status: task.status,
                    created_at: created_at@,
                    updated_at: updated_at@,
                })
                &&& task@.wf()
            },
            Err(error) => if forall|known: TaskStatus| status@ != known.name() {
                is_invalid(error, TaskStatus::invalid_message(status@))
            } else {
                task_error(name@, priority) matches Some(message) && is_invalid(error, message)
            },
        },
{
    let status = match TaskStatus::from_str(status) {
        Ok(status) => status,
        Err(message) => {
            return Err(RepositoryError::ValidationError(message));
        },
    };
    match Task::new_with_status(
        TaskId::new(task_id),
        name,
        priority,
        status,
        created_at,
        updated_at,
    ) {
        Ok(task) => Ok(task),
        Err(message) => Err(RepositoryError::ValidationError(message)),
    }
}

/// The first of the three names of a row of the history that names
/// nothing, with the message that says so: the status that the task left,
/// then the status that it entered, then the role.
pub open spec fn history_row_error(
    from_status: Option<Seq<char>>,
    to_status: Seq<char>,
    user_role: Seq<char>,
) -> Option<Seq<char>> {
    if from_status matches Some(name) && (forall|known: TaskStatus| name != known.name()) {
        Some(TaskStatus::invalid_message(from_status->0))
    } else if forall|known: TaskStatus| to_status != known.name() {
        Some(TaskStatus::invalid_message(to_status))
    } else if forall|known: UserRole| user_role != known.name() {
        Some(UserRole::invalid_message(user_role))
    } else {
        None
    }
}

/// The record that a row of the history holds. The two statuses and the
/// role are stored by their names.
pub fn row_to_status_history(
    id: String,
    task_id: i32,
    from_status: Option<String>,
    to_status: String,
    changed_at: Timestamp,
    changed_by: String,
    comment: Option<String>,
    user_role: String,
) -> (read: Result<StatusHistory, RepositoryError>)
    ensures
        match read {
            Ok(entry) => {
                &&& history_row_error(text_of(from_status), to_status@, user_role@) is None
                &&& entry.id == id
                &&& entry.task_id == task_id
                &&& (match entry.from_status {
                    Some(status) => text_of(from_status) == Some(status.name()),
                    None => from_status is None,
                })
                &&& entry.to_status.name() == to_status@
                &&& entry.changed_at == changed_at
                &&& entry.changed_by == changed_by
                &&& entry.comment == comment
                &&& entry.user_role.name() == user_role@
            },
            Err(error) => history_row_error(text_of(from_status), to_status@, user_role@)
                matches Some(message) && is_invalid(error, message),
        },
{
    let from_status = match from_status {
        Some(name) => match TaskStatus::from_str(name.as_str()) {
            Ok(status) => Some(status),
            Err(message) => {
                return Err(RepositoryError::ValidationError(message));
            },
        },
        None => None,
    };
    let to_status = match TaskStatus::from_str(to_status.as_str()) {
        Ok(status) => status,
        Err(message) => {
            return Err(RepositoryError::ValidationError(message));
        },
    };
    let user_role = match UserRole::from_str(user_role.as_str()) {
        Ok(role) => role,
        Err(message) => {
            return Err(RepositoryError::ValidationError(message));
        },
    };
    Ok(
        StatusHistory::new(
            id,
            task_id,
            from_status,
            to_status,
            changed_at,
            changed_by,
            comment,
            user_role,
        ),
    )
}

/// The outcome of an update or a deletion of the task `id` that changed
/// `rows_affected` rows: where it changed none, the task is not there.
pub fn task_write_outcome(rows_affected: u64, id: TaskId) -> (outcome: Result<(), RepositoryError>)
    ensures
        rows_affected != 0 ==> (outcome is Ok),
        rows_affected == 0 ==> (outcome matches Err(RepositoryError::NotFound(message))
            && message@ == RepositoryError::task_not_found_message(id@ as int)),
{
    if rows_affected == 0 {
        return Err(RepositoryError::NotFound(task_not_found(id.value())));
    }
    Ok(())
}

/// The outcome of a deletion of the history record `id` that changed
/// `rows_affected` rows: where it changed none, the record is not there.
pub fn history_delete_outcome(rows_affected: u64, id: &str) -> (outcome: Result<
    (),
    RepositoryError,
>)
    ensures
        rows_affected != 0 ==> (outcome is Ok),
        rows_affected == 0 ==> (outcome matches Err(RepositoryError::NotFound(message))
            && message@ == RepositoryError::history_not_found_message(id@)),
{
    if rows_affected == 0 {
        return Err(
            RepositoryError::NotFound(
                String::from_str("Status history with id ").concat(id).concat(" not found"),
            ),
        );
    }
    Ok(())
}

/// The analytics of the task whose history was read. A malformed history
/// is a validation error.
pub fn task_analytics(history: Vec<StatusHistory>) -> (found: Result<
    Option<TaskAnalytics>,
    RepositoryError,
>)
    ensures
        match found {
            Ok(Some(analytics)) => history_fault(views(history@)) is None && analytics_of(
                views(history@),
            ) == Some(analytics@),
            Ok(None) => history@.len() == 0,
            Err(error) => history_fault(views(history@)) matches Some(message) && is_invalid(
                error,
                message,
            ),
        },
{
    match TaskAnalytics::try_from_history(history) {
        Ok(found) => Ok(found),
        Err(message) => Err(RepositoryError::ValidationError(message)),
    }
}

/// The analytics that the histories of `histories` give, in their order;
/// a history that gives none is passed over.
pub open spec fn analytics_of_all(histories: Seq<Vec<StatusHistory>>) -> Seq<TaskAnalyticsView>
    decreases histories.len(),
{
    if histories.len() == 0 {
        Seq::empty()
    } else {
        let before = analytics_of_all(histories.drop_last());
        match analytics_of(views(histories.last()@)) {
            Some(found) => before.push(found),
            None => before,
        }
    }
}

/// The analytics of each task whose history is in `histories`.
pub fn completion_analytics(histories: Vec<Vec<StatusHistory>>) -> (found: Vec<TaskAnalytics>)
    ensures
        crate::domain::population::analytics_views(found@) == analytics_of_all(histories@),
{
    let mut found: Vec<TaskAnalytics> = Vec::new();
    let ghost all = histories@;
    proof {
        assert(crate::domain::population::analytics_views(found@) =~= Seq::<
            TaskAnalyticsView,
        >::empty());
        assert(all.take(0) =~= Seq::<Vec<StatusHistory>>::empty());
    }
    for history in it: histories.into_iter()
        invariant
            it.seq() == all,
            crate::domain::population::analytics_views(found@) == analytics_of_all(
                all.take(it.index() as int),
            ),
    {
        proof {
            assert(all.take(it.index() + 1).drop_last() =~= all.take(it.index() as int));
            assert(all.take(it.index() + 1).last() == history);
        }
        let ghost before = found@;
        if let Some(analytics) = TaskAnalytics::from_history(history) {
            found.push(analytics);
            proof {
                assert(crate::domain::population::analytics_views(found@)
                    =~= crate::domain::population::analytics_views(before).push(analytics@));
            }
        }
    }
    proof {
        assert(all.take(all.len() as int) =~= all);
    }
    found
}

} // verus!
