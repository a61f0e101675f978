//! The identity of a task.

use vstd::prelude::*;
use vstd::std_specs::convert::FromSpecImpl;

verus! {

/// The identifier that the store gives a task. Any 32-bit integer is an
/// identifier; 0 stands for "not yet assigned".
#[derive(Debug, Clone, Copy, PartialEq, Eq, Hash, Structural)]
pub struct TaskId(pub i32);

impl View for TaskId {
    type V = i32;

    open spec fn view(&self) -> i32 {
        self.0
    }
}

impl TaskId {
    /// The identifier with the value `id`.
    pub fn new(id: i32) -> (task_id: TaskId)
        ensures
            task_id@ == id,
    {
        TaskId(id)
    }

    /// The value of the identifier.
    pub fn value(&self) -> (id: i32)
        ensures
            id == self@,
    {
        self.0
    }
}

impl From<i32> for TaskId {
    fn from(id: i32) -> (task_id: TaskId) {
        TaskId::new(id)
    }
}

impl FromSpecImpl<i32> for TaskId {
    open spec fn obeys_from_spec() -> bool {
        true
    }

    open spec fn from_spec(id: i32) -> TaskId {
        TaskId(id)
    }
}

impl From<TaskId> for i32 {
    fn from(task_id: TaskId) -> (id: i32) {
        task_id.value()
    }
}

impl FromSpecImpl<TaskId> for i32 {
    open spec fn obeys_from_spec() -> bool {
        true
    }

    open spec fn from_spec(task_id: TaskId) -> i32 {
        task_id.0
    }
}

} // verus!
