//! The task list as a mathematical sequence, and what each operation makes of it.
//!
//! Everything here is ghost code: the executable store states its contracts
//! over these functions, and the laws of the list are proved of them.

use vstd::prelude::*;
use crate::render::lines;
use crate::task::{pending, TaskView};

verus! {

/// The greatest identifier in the list, or 0 where the list is empty.
pub open spec fn max_id(tasks: Seq<TaskView>) -> nat
    decreases tasks.len(),
{
    if tasks.len() == 0 {
        0
    } else {
        let before = max_id(tasks.drop_last());
        if tasks.last().id > before {
            tasks.last().id
        } else {
            before
        }
    }
}

/// No two tasks of the list share an identifier.
pub open spec fn ids_distinct(tasks: Seq<TaskView>) -> bool {
    forall|i: int, j: int| 0 <= i < j < tasks.len() ==> tasks[i].id != tasks[j].id
}

/// Some task of the list has the identifier.
pub open spec fn has_id(tasks: Seq<TaskView>, id: nat) -> bool {
    exists|i: int| 0 <= i < tasks.len() && tasks[i].id == id
}

/// `at` is the position of the first task with the identifier.
pub open spec fn is_first_with_id(tasks: Seq<TaskView>, id: nat, at: int) -> bool {
    &&& 0 <= at < tasks.len()
    &&& tasks[at].id == id
    &&& forall|i: int| 0 <= i < at ==> tasks[i].id != id
}

/// The position of the first task with the identifier, if there is one.
pub open spec fn first_with_id(tasks: Seq<TaskView>, id: nat) -> Option<int> {
    if has_id(tasks, id) {
        Some(choose|at: int| is_first_with_id(tasks, id, at))
    } else {
        None
    }
}

/// The identifier that the next added task receives.
pub open spec fn next_id(tasks: Seq<TaskView>) -> nat {
    max_id(tasks) + 1
}

/// The list after a task with the description has been added: the old list,
/// then a pending task under the next identifier.
pub open spec fn added(tasks: Seq<TaskView>, description: Seq<char>) -> Seq<TaskView> {
    tasks.push(pending(next_id(tasks), description))
}

/// The list after the first task with the identifier has been removed. The
/// others keep their order. A list without such a task stays as it is.
pub open spec fn removed(tasks: Seq<TaskView>, id: nat) -> Seq<TaskView> {
    match first_with_id(tasks, id) {
        Some(at) => tasks.remove(at),
        None => tasks,
    }
}

/// The task with its completion flag set.
pub open spec fn finished(task: TaskView) -> TaskView {
    TaskView { id: task.id, description: task.description, done: true }
}

/// The list after the first task with the identifier has been completed. A list
/// without such a task stays as it is.
pub open spec fn completed(tasks: Seq<TaskView>, id: nat) -> Seq<TaskView> {
    match first_with_id(tasks, id) {
        Some(at) => tasks.update(at, finished(tasks[at])),
        None => tasks,
    }
}

/// One command, as a mathematical value.
pub enum Op {
    /// Add a task with the description.
    Add { description: Seq<char> },
    /// Show the tasks.
    List,
    /// Remove the task with the identifier.
    Remove { id: nat },
    /// Complete the task with the identifier.
    Done { id: nat },
}

/// What a command reports, as a mathematical value.
pub enum Reply {
    /// The task that was added.
    Added(TaskView),
    /// There is no task to show.
    NoTasks,
    /// The display lines of the tasks.
    Listed(Seq<Seq<char>>),
    /// The task that was removed.
    Removed(TaskView),
    /// No task has the identifier that was to be removed.
    NotRemoved { id: nat },
    /// The task with the identifier is now done.
    Completed { id: nat },
    /// No task has the identifier that was to be completed.
    NotCompleted { id: nat },
}

/// The list after a command.
pub open spec fn step(tasks: Seq<TaskView>, op: Op) -> Seq<TaskView> {
    match op {
        Op::Add { description } => added(tasks, description),
        Op::List => tasks,
        Op::Remove { id } => removed(tasks, id),
        Op::Done { id } => completed(tasks, id),
    }
}

/// What a command reports of the list that it finds.
pub open spec fn reply(tasks: Seq<TaskView>, op: Op) -> Reply {
    match op {
        Op::Add { description } => Reply::Added(pending(next_id(tasks), description)),
        Op::List => if tasks.len() == 0 {
            Reply::NoTasks
        } else {
            Reply::Listed(lines(tasks))
        },
        Op::Remove { id } => match first_with_id(tasks, id) {
            Some(at) => Reply::Removed(tasks[at]),
            None => Reply::NotRemoved { id },
        },
        Op::Done { id } => if has_id(tasks, id) {
            Reply::Completed { id }
        } else {
            Reply::NotCompleted { id }
        },
    }
}

/// Whether the list is to be written back after a command with this reply.
pub open spec fn persists(reply: Reply) -> bool {
    reply is Added || reply is Removed || reply is Completed
}

/// The list after a sequence of commands, applied in order.
pub open spec fn run(tasks: Seq<TaskView>, ops: Seq<Op>) -> Seq<TaskView>
    decreases ops.len(),
{
    if ops.len() == 0 {
        tasks
    } else {
        step(run(tasks, ops.drop_last()), ops.last())
    }
}

/// Where the task at position `at` stands after a command, or `None` where the
/// command has removed it.
pub open spec fn place_after(tasks: Seq<TaskView>, op: Op, at: int) -> Option<int> {
    match op {
        Op::Remove { id } => match first_with_id(tasks, id) {
            Some(gone) => if gone == at {
                None
            } else if gone < at {
                Some(at - 1)
            } else {
                Some(at)
            },
            None => Some(at),
        },
        _ => Some(at),
    }
}

/// Where the task at position `at` stands after a sequence of commands, or
/// `None` where one of them has removed it.
pub open spec fn place_after_all(tasks: Seq<TaskView>, ops: Seq<Op>, at: int) -> Option<int>
    decreases ops.len(),
{
    if ops.len() == 0 {
        Some(at)
    } else {
        match place_after_all(tasks, ops.drop_last(), at) {
            Some(place) => place_after(run(tasks, ops.drop_last()), ops.last(), place),
            None => None,
        }
    }
}

/// The first position with the identifier is unique, and it is the one that
/// `first_with_id` names.
pub proof fn lemma_first_with_id(tasks: Seq<TaskView>, id: nat, at: int)
    requires
        is_first_with_id(tasks, id, at),
    ensures
        has_id(tasks, id),
        first_with_id(tasks, id) == Some(at),
{
    let chosen = choose|k: int| is_first_with_id(tasks, id, k);
    assert(is_first_with_id(tasks, id, chosen));
    if chosen < at {
        assert(tasks[chosen].id != id);
    }
    if at < chosen {
        assert(tasks[at].id != id);
    }
}

/// Where a list has the identifier, `first_with_id` names its first position.
pub proof fn lemma_first_with_id_found(tasks: Seq<TaskView>, id: nat)
    requires
        has_id(tasks, id),
    ensures
        first_with_id(tasks, id) is Some,
        is_first_with_id(tasks, id, first_with_id(tasks, id)->0),
{
    let witness = choose|i: int| 0 <= i < tasks.len() && tasks[i].id == id;
    let at = lemma_least_position(tasks, id, witness);
    lemma_first_with_id(tasks, id, at);
}

/// Below any position with the identifier lies a first one.
proof fn lemma_least_position(tasks: Seq<TaskView>, id: nat, upto: int) -> (at: int)
    requires
        0 <= upto < tasks.len(),
        tasks[upto].id == id,
    ensures
        is_first_with_id(tasks, id, at),
        at <= upto,
    decreases upto,
{
    if exists|i: int| 0 <= i < upto && tasks[i].id == id {
        let lower = choose|i: int| 0 <= i < upto && tasks[i].id == id;
        lemma_least_position(tasks, id, lower)
    } else {
        upto
    }
}

/// `max_id` bounds every identifier of the list, and a list that is not empty
/// holds a task that has it.
pub proof fn lemma_max_id(tasks: Seq<TaskView>)
    ensures
        forall|i: int| 0 <= i < tasks.len() ==> tasks[i].id <= max_id(tasks),
        tasks.len() > 0 ==> has_id(tasks, max_id(tasks)),
        tasks.len() == 0 ==> max_id(tasks) == 0,
    decreases tasks.len(),
{
    if tasks.len() > 0 {
        let front = tasks.drop_last();
        lemma_max_id(front);
        assert forall|i: int| 0 <= i < tasks.len() implies tasks[i].id <= max_id(tasks) by {
            if i < front.len() {
                assert(front[i] == tasks[i]);
            }
        }
        if tasks.last().id > max_id(front) {
            assert(tasks[tasks.len() - 1].id == max_id(tasks));
        } else if front.len() > 0 {
            let i = choose|i: int| 0 <= i < front.len() && front[i].id == max_id(front);
            assert(tasks[i].id == max_id(tasks));
        } else {
            assert(tasks[tasks.len() - 1].id == max_id(tasks));
        }
    }
}

} // verus!
