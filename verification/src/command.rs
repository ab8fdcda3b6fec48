//! Commands: the four things a user can ask of the store, and what each reports.

use vstd::prelude::*;
use crate::model::{max_id, persists, reply, step, Op, Reply};
use crate::render::texts;
use crate::store::TaskStore;
use crate::task::Task;

verus! {

/// One request to the store.
#[derive(Debug, PartialEq, Eq)]
pub enum Command {
    /// Add a pending task with the description.
    Add { description: String },
    /// Show the tasks.
    List,
    /// Remove the first task with the identifier.
    Remove { id: u32 },
    /// Mark the first task with the identifier as done.
    Done { id: u32 },
}

impl View for Command {
    type V = Op;

    open spec fn view(&self) -> Op {
        match *self {
            Command::Add { description } => Op::Add { description: description@ },
            Command::List => Op::List,
            Command::Remove { id } => Op::Remove { id: id as nat },
            Command::Done { id } => Op::Done { id: id as nat },
        }
    }
}

impl Clone for Command {
    fn clone(&self) -> (copy: Command)
        ensures
            copy == *self,
    {
        match self {
            Command::Add { description } => Command::Add { description: description.clone() },
            Command::List => Command::List,
            Command::Remove { id } => Command::Remove { id: *id },
            Command::Done { id } => Command::Done { id: *id },
        }
    }
}

/// What the store reports after a command.
#[derive(Debug, PartialEq, Eq)]
pub enum Outcome {
    /// The task that was added.
    Added(Task),
    /// The store holds no task to show.
    NoTasks,
    /// The display lines of the tasks, one for each, in stored order.
    Listed(Vec<String>),
    /// The task that was removed.
    Removed(Task),
    /// No task has the identifier that was to be removed.
    NotRemoved { id: u32 },
    /// The task with the identifier is now done.
    Completed { id: u32 },
    /// No task has the identifier that was to be completed.
    NotCompleted { id: u32 },
}

impl View for Outcome {
    type V = Reply;

    open spec fn view(&self) -> Reply {
        match *self {
            Outcome::Added(task) => Reply::Added(task@),
            Outcome::NoTasks => Reply::NoTasks,
            Outcome::Listed(shown) => Reply::Listed(texts(shown@)),
            Outcome::Removed(task) => Reply::Removed(task@),
            Outcome::NotRemoved { id } => Reply::NotRemoved { id: id as nat },
            Outcome::Completed { id } => Reply::Completed { id: id as nat },
            Outcome::NotCompleted { id } => Reply::NotCompleted { id: id as nat },
        }
    }
}

impl Clone for Outcome {
    fn clone(&self) -> (copy: Outcome)
        ensures
            copy@ == self@,
    {
        match self {
            Outcome::Added(task) => Outcome::Added(task.clone()),
            Outcome::NoTasks => Outcome::NoTasks,
            Outcome::Listed(shown) => {
                let copied = shown.clone();
                assert(copied@ =~= shown@);
                Outcome::Listed(copied)
            },
            Outcome::Removed(task) => Outcome::Removed(task.clone()),
            Outcome::NotRemoved { id } => Outcome::NotRemoved { id: *id },
            Outcome::Completed { id } => Outcome::Completed { id: *id },
            Outcome::NotCompleted { id } => Outcome::NotCompleted { id: *id },
        }
    }
}

impl Outcome {
    /// Whether the store changed and has to be written back.
    pub fn persist(&self) -> (write: bool)
        ensures
            write == persists(self@),
    {
        match self {
            Outcome::Added(_) => true,
            Outcome::Removed(_) => true,
            Outcome::Completed { .. } => true,
            _ => false,
        }
    }
}

impl TaskStore {
    /// Carries out one command on the store and reports what came of it.
    pub fn apply(&mut self, command: Command) -> (outcome: Outcome)
        requires
            command is Add ==> max_id(old(self)@) < u32::MAX,
        ensures
            final(self)@ == step(old(self)@, command@),
            outcome@ == reply(old(self)@, command@),
    {
        match command {
            Command::Add { description } => Outcome::Added(self.add(description)),
            Command::List => {
                if self.is_empty() {
                    Outcome::NoTasks
                } else {
                    Outcome::Listed(self.list())
                }
            },
            Command::Remove { id } => match self.remove(id) {
                Some(task) => Outcome::Removed(task),
                None => Outcome::NotRemoved { id },
            },
            Command::Done { id } => {
                if self.complete(id) {
                    Outcome::Completed { id }
                } else {
                    Outcome::NotCompleted { id }
                }
            },
        }
    }
}

} // verus!
