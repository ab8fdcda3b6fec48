//! The task store: the list of tasks held in memory, and the operations on it.

use vstd::prelude::*;
use crate::model::{
    added, completed, first_with_id, has_id, is_first_with_id, lemma_first_with_id, max_id,
    removed,
};
use crate::render::{line, lines, texts};
use crate::task::{pending, task_views, Task, TaskView};

verus! {

/// An ordered list of tasks. Insertion order is kept; removing a task leaves the
/// order of the others as it was.
#[derive(Debug, PartialEq, Eq)]
pub struct TaskStore {
    tasks: Vec<Task>,
}

impl View for TaskStore {
    type V = Seq<TaskView>;

    closed spec fn view(&self) -> Seq<TaskView> {
        task_views(self.tasks@)
    }
}

impl Clone for TaskStore {
    fn clone(&self) -> (copy: TaskStore)
        ensures
            copy@ == self@,
    {
        let tasks = self.tasks.clone();
        assert(tasks@ =~= self.tasks@);
        TaskStore { tasks }
    }
}

impl Default for TaskStore {
    fn default() -> (store: TaskStore)
        ensures
            store@ == Seq::<TaskView>::empty(),
    {
        TaskStore::new()
    }
}

impl TaskStore {
    /// A store without tasks.
    pub fn new() -> (store: TaskStore)
        ensures
            store@ == Seq::<TaskView>::empty(),
    {
        let store = TaskStore { tasks: Vec::new() };
        assert(store@ =~= Seq::<TaskView>::empty());
        store
    }

    /// A store that holds the given tasks, in their order.
    pub fn from_tasks(tasks: Vec<Task>) -> (store: TaskStore)
        ensures
            store@ == task_views(tasks@),
    {
        TaskStore { tasks }
    }

    /// The tasks, in their order.
    pub fn tasks(&self) -> (tasks: &Vec<Task>)
        ensures
            task_views(tasks@) == self@,
    {
        &self.tasks
    }

    /// Gives up the store for the tasks it holds, in their order.
    pub fn into_tasks(self) -> (tasks: Vec<Task>)
        ensures
            task_views(tasks@) == self@,
    {
        self.tasks
    }

    /// Whether the store holds no task.
    pub fn is_empty(&self) -> (empty: bool)
        ensures
            empty == (self@.len() == 0),
    {
        self.tasks.len() == 0
    }

    /// The number of tasks.
    pub fn len(&self) -> (n: usize)
        ensures
            n == self@.len(),
    {
        self.tasks.len()
    }

    /// The greatest identifier in use, or 0 in a store without tasks.
    pub fn max_id(&self) -> (greatest: u32)
        ensures
            greatest == max_id(self@),
    {
        let mut greatest: u32 = 0;
        let mut i: usize = 0;
        while i < self.tasks.len()
            invariant
                i <= self.tasks.len(),
                greatest == max_id(self@.take(i as int)),
            decreases self.tasks.len() - i,
        {
            proof {
                let upto = self@.take(i + 1);
                assert(upto.drop_last() =~= self@.take(i as int));
                assert(upto.last() == self.tasks[i as int]@);
            }
            if self.tasks[i].id > greatest {
                greatest = self.tasks[i].id;
            }
            i += 1;
        }
        assert(self@.take(i as int) =~= self@);
        greatest
    }

    /// The position of the first task with the identifier, if there is one.
    pub fn position(&self, id: u32) -> (found: Option<usize>)
        ensures
            match found {
                Some(at) => is_first_with_id(self@, id as nat, at as int),
                None => !has_id(self@, id as nat),
            },
            found.is_some() == has_id(self@, id as nat),
            found is Some ==> first_with_id(self@, id as nat) == Some(found->0 as int),
    {
        let mut i: usize = 0;
        while i < self.tasks.len()
            invariant
                i <= self.tasks.len(),
                forall|k: int| 0 <= k < i ==> self@[k].id != id,
            decreases self.tasks.len() - i,
        {
            if self.tasks[i].id == id {
                proof {
                    assert(is_first_with_id(self@, id as nat, i as int));
                    lemma_first_with_id(self@, id as nat, i as int);
                }
                return Some(i);
            }
            i += 1;
        }
        None
    }

    /// The display lines of the tasks, one for each, in their order. The store
    /// is read and not changed.
    pub fn list(&self) -> (shown: Vec<String>)
        ensures
            shown@.len() == self@.len(),
            texts(shown@) == lines(self@),
    {
        let mut shown: Vec<String> = Vec::new();
        let mut i: usize = 0;
        while i < self.tasks.len()
            invariant
                i <= self.tasks.len(),
                shown@.len() == i,
                forall|k: int| 0 <= k < i ==> shown@[k]@ == line(self@[k]),
            decreases self.tasks.len() - i,
        {
            let text = self.tasks[i].line();
            shown.push(text);
            i += 1;
        }
        assert(texts(shown@) =~= lines(self@));
        shown
    }

    /// Appends a pending task with the description, under an identifier one
    /// above the greatest in use, and returns a copy of it.
    pub fn add(&mut self, description: String) -> (task: Task)
        requires
            max_id(old(self)@) < u32::MAX,
        ensures
            final(self)@ == added(old(self)@, description@),
            task@ == pending(max_id(old(self)@) + 1, description@),
    {
        let id: u32 = self.max_id() + 1;
        let task = Task::new(id, description);
        let copy = task.clone();
        self.tasks.push(task);
        assert(self@ =~= added(old(self)@, description@));
        copy
    }

    /// Removes the first task with the identifier and returns it. Without such a
    /// task the store is left as it is.
    pub fn remove(&mut self, id: u32) -> (taken: Option<Task>)
        ensures
            final(self)@ == removed(old(self)@, id as nat),
            match taken {
                Some(task) => {
                    &&& first_with_id(old(self)@, id as nat) is Some
                    &&& task@ == old(self)@[first_with_id(old(self)@, id as nat)->0]
                },
                None => !has_id(old(self)@, id as nat),
            },
    {
        match self.position(id) {
            Some(at) => {
                let task = self.tasks.remove(at);
                assert(self@ =~= old(self)@.remove(at as int));
                Some(task)
            },
            None => None,
        }
    }

    /// Marks the first task with the identifier as done, and says whether there
    /// was one. Without such a task the store is left as it is.
    pub fn complete(&mut self, id: u32) -> (found: bool)
        ensures
            final(self)@ == completed(old(self)@, id as nat),
            found == has_id(old(self)@, id as nat),
    {
        match self.position(id) {
            Some(at) => {
                self.tasks[at].done = true;
                assert(self@ =~= completed(old(self)@, id as nat));
                true
            },
            None => false,
        }
    }
}

} // verus!
