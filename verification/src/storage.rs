//! What is found in the backing storage when a run begins, and the list that
//! the store starts from.

use vstd::prelude::*;
use crate::store::TaskStore;
use crate::task::{task_views, Task, TaskView};

verus! {

/// The state of the backing storage at the start of a run.
#[derive(Debug, PartialEq, Eq)]
pub enum Stored {
    /// There is no storage yet.
    Missing,
    /// The storage exists and could not be read.
    Unreadable,
    /// The storage was read and does not hold a list of tasks.
    Undecodable,
    /// The tasks that the storage holds, in their order.
    Tasks(Vec<Task>),
}

/// The list that a run starts from: the stored tasks, field for field and in
/// their order, where there are any, and the empty list in every other case.
pub open spec fn loaded(stored: Stored) -> Seq<TaskView> {
    match stored {
        Stored::Tasks(tasks) => task_views(tasks@),
        _ => Seq::empty(),
    }
}

impl TaskStore {
    /// The store that a run starts from. Storage that is missing, unreadable or
    /// undecodable gives a store without tasks.
    pub fn open(stored: Stored) -> (store: TaskStore)
        ensures
            store@ == loaded(stored),
    {
        match stored {
            Stored::Tasks(tasks) => TaskStore::from_tasks(tasks),
            _ => TaskStore::new(),
        }
    }
}

} // verus!
