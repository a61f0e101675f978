//! The rows of the table of tasks, and the requests that write to it.

use vstd::prelude::*;
use vstd::string::*;
use crate::domain::task_domain_service::{priority_error, reports, TaskDomainService};
use crate::text::{all_whitespace, lemma_trimmed, trim};

verus! {

/// A row of the table of tasks.
#[derive(Debug)]
pub struct Task {
    pub task_id: i32,
    pub name: String,
    pub priority: Option<i32>,
}

/// The request to insert a row.
#[derive(Debug)]
pub struct CreateTaskRequest {
    pub name: String,
    pub priority: Option<i32>,
}

/// The request to change a row. What is absent stays as it is.
#[derive(Debug)]
pub struct UpdateTaskRequest {
    pub name: Option<String>,
    pub priority: Option<i32>,
}

/// The id of the row that was inserted.
#[derive(Debug)]
pub struct CreateTaskResponse {
    pub task_id: i32,
}

/// Why a row cannot hold `name` and `priority`: the name must hold a
/// character that is not whitespace, and the priority must be absent or lie
/// between 1 and 10. The length of the name is not limited here.
pub open spec fn row_error(name: Seq<char>, priority: Option<i32>) -> Option<Seq<char>> {
    if all_whitespace(name) {
        Some("Task name cannot be empty"@)
    } else {
        priority_error(priority)
    }
}

/// Checks the name and the priority of a row.
fn validate_row(name: &str, priority: Option<i32>) -> (outcome: Result<(), String>)
    ensures
        reports(outcome, row_error(name@, priority)),
{
    proof {
        lemma_trimmed(name@);
    }
    if trim(name).as_str().is_empty() {
        return Err(String::from_str("Task name cannot be empty"));
    }
    TaskDomainService::new().validate_priority(priority)
}

impl Task {
    /// Checks the name and the priority of the row.
    pub fn validate(&self) -> (outcome: Result<(), String>)
        ensures
            reports(outcome, row_error(self.name@, self.priority)),
    {
        validate_row(self.name.as_str(), self.priority)
    }
}

impl CreateTaskRequest {
    /// Checks the name and the priority that the request gives.
    pub fn validate(&self) -> (outcome: Result<(), String>)
        ensures
            reports(outcome, row_error(self.name@, self.priority)),
    {
        validate_row(self.name.as_str(), self.priority)
    }
}

/// Why the update `request` is refused: a name that is given must hold a
/// character that is not whitespace, and a priority that is given must lie
/// between 1 and 10.
pub open spec fn update_row_error(request: UpdateTaskRequest) -> Option<Seq<char>> {
    match request.name {
        Some(name) if all_whitespace(name@) => Some("Task name cannot be empty"@),
        _ => priority_error(request.priority),
    }
}

impl UpdateTaskRequest {
    /// Checks what the request gives.
    pub fn validate(&self) -> (outcome: Result<(), String>)
        ensures
            reports(outcome, update_row_error(*self)),
    {
        if let Some(name) = &self.name {
            proof {
                lemma_trimmed(name@);
            }
            if trim(name.as_str()).as_str().is_empty() {
                return Err(String::from_str("Task name cannot be empty"));
            }
        }
        TaskDomainService::new().validate_priority(self.priority)
    }
}

/// The first fault among the rows, in their order, or none.
pub open spec fn first_row_error(rows: Seq<Task>) -> Option<Seq<char>>
    decreases rows.len(),
{
    if rows.len() == 0 {
        None
    } else if row_error(rows.first().name@, rows.first().priority) is Some {
        row_error(rows.first().name@, rows.first().priority)
    } else {
        first_row_error(rows.drop_first())
    }
}

/// Checks each row that was read, and reports the first fault.
pub fn validate_rows(rows: &Vec<Task>) -> (outcome: Result<(), String>)
    ensures
        reports(outcome, first_row_error(rows@)),
{
    let mut i: usize = 0;
    assert(rows@.subrange(0, rows@.len() as int) =~= rows@);
    while i < rows.len()
        invariant
            i <= rows.len(),
            first_row_error(rows@) == first_row_error(rows@.subrange(i as int, rows@.len() as int)),
        decreases rows.len() - i,
    {
        let ghost rest = rows@.subrange(i as int, rows@.len() as int);
        proof {
            assert(rest.first() == rows@[i as int]);
            assert(rest.drop_first() =~= rows@.subrange(i + 1, rows@.len() as int));
        }
        match rows[i].validate() {
            Err(message) => {
                return Err(message);
            },
            Ok(()) => {},
        }
        i = i + 1;
    }
    Ok(())
}

} // verus!
