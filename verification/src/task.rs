//! A single task and its mathematical view.

use vstd::prelude::*;

verus! {

/// What a task is, as a mathematical value.
pub struct TaskView {
    pub id: nat,
    pub description: Seq<char>,
    pub done: bool,
}

/// One entry of the task list.
#[derive(Debug, PartialEq, Eq)]
pub struct Task {
    /// Identifier, assigned by the store.
    pub id: u32,
    /// Free-form text, kept verbatim.
    pub description: String,
    /// Whether the task has been completed.
    pub done: bool,
}

impl View for Task {
    type V = TaskView;

    open spec fn view(&self) -> TaskView {
        TaskView { id: self.id as nat, description: self.description@, done: self.done }
    }
}

impl Clone for Task {
    fn clone(&self) -> (copy: Task)
        ensures
            copy == *self,
    {
        Task { id: self.id, description: self.description.clone(), done: self.done }
    }
}

impl Task {
    /// A pending task with the given identifier and description.
    pub fn new(id: u32, description: String) -> (task: Task)
        ensures
            task@ == pending(id as nat, description@),
            task.id == id,
            task.description == description,
            !task.done,
    {
        Task { id, description, done: false }
    }
}

/// The pending task with the given identifier and description.
pub open spec fn pending(id: nat, description: Seq<char>) -> TaskView {
    TaskView { id, description, done: false }
}

/// The views of a sequence of tasks, in order.
pub open spec fn task_views(tasks: Seq<Task>) -> Seq<TaskView> {
    tasks.map_values(|task: Task| task@)
}

} // verus!
