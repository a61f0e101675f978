//! The rules on the name and the priority of a task.

use vstd::prelude::*;
use vstd::string::*;
use crate::domain::task::Task;
use crate::text::{all_whitespace, lemma_trimmed, trim};

verus! {

/// The most characters that the name of a task may have.
pub const MAX_NAME_CHARS: usize = 255;

/// The lowest priority level.
pub const MIN_PRIORITY: i32 = 1;

/// The highest priority level.
pub const MAX_PRIORITY: i32 = 10;

/// Why `name` cannot name a task, or `None` where it can: a name must hold a
/// character that is not whitespace, and at most 255 characters in all.
pub open spec fn name_error(name: Seq<char>) -> Option<Seq<char>> {
    if all_whitespace(name) {
        Some("Task name cannot be empty"@)
    } else if name.len() > MAX_NAME_CHARS {
        Some("Task name cannot exceed 255 characters"@)
    } else {
        None
    }
}

/// Why `priority` cannot be the priority of a task, or `None` where it can:
/// a priority is absent or lies between 1 and 10.
pub open spec fn priority_error(priority: Option<i32>) -> Option<Seq<char>> {
    match priority {
        Some(level) if level < MIN_PRIORITY || level > MAX_PRIORITY => Some(
            "Priority must be between 1 and 10"@,
        ),
        _ => None,
    }
}

/// Why a task cannot be given `name` and `priority`: the fault of the name
/// comes first.
pub open spec fn task_error(name: Seq<char>, priority: Option<i32>) -> Option<Seq<char>> {
    if name_error(name) is Some {
        name_error(name)
    } else {
        priority_error(priority)
    }
}

/// Why a task cannot be updated with the given values: a name that is not
/// given is not checked.
pub open spec fn update_error(new_name: Option<Seq<char>>, new_priority: Option<i32>) -> Option<
    Seq<char>,
> {
    match new_name {
        Some(name) if name_error(name) is Some => name_error(name),
        _ => priority_error(new_priority),
    }
}

/// Whether `outcome` reports exactly the fault `expected`.
pub open spec fn reports(outcome: Result<(), String>, expected: Option<Seq<char>>) -> bool {
    match outcome {
        Ok(()) => expected is None,
        Err(message) => expected == Some(message@),
    }
}

/// The checks on the values of a task.
#[derive(Debug, Clone, Copy)]
pub struct TaskDomainService;

impl TaskDomainService {
    /// The service. It holds nothing.
    pub fn new() -> (service: TaskDomainService) {
        TaskDomainService
    }

    /// Accepts a name that holds a character that is not whitespace and at
    /// most 255 characters in all.
    pub fn validate_task_name(&self, name: &str) -> (outcome: Result<(), String>)
        ensures
            reports(outcome, name_error(name@)),
    {
        proof {
            lemma_trimmed(name@);
        }
        if trim(name).as_str().is_empty() {
            return Err(String::from_str("Task name cannot be empty"));
        }
        if name.unicode_len() > MAX_NAME_CHARS {
            return Err(String::from_str("Task name cannot exceed 255 characters"));
        }
        Ok(())
    }

    /// Accepts a priority that is absent or lies between 1 and 10.
    pub fn validate_priority(&self, priority: Option<i32>) -> (outcome: Result<(), String>)
        ensures
            reports(outcome, priority_error(priority)),
    {
        if let Some(level) = priority {
            if level < MIN_PRIORITY || level > MAX_PRIORITY {
                return Err(String::from_str("Priority must be between 1 and 10"));
            }
        }
        Ok(())
    }

    /// Whether a task may be updated with the given values. The task itself
    /// has no say in it.
    pub fn can_update_task(
        &self,
        _task: &Task,
        new_name: Option<&str>,
        new_priority: Option<i32>,
    ) -> (outcome: Result<(), String>)
        ensures
            reports(
                outcome,
                update_error(
                    match new_name {
                        Some(name) => Some(name@),
                        None => None,
                    },
                    new_priority,
                ),
            ),
    {
        if let Some(name) = new_name {
            match self.validate_task_name(name) {
                Err(message) => {
                    return Err(message);
                },
                Ok(()) => {},
            }
        }
        self.validate_priority(new_priority)
    }
}

} // verus!
