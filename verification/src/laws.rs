//! Laws of the task list, proved of the model that the store's contracts use.

use vstd::prelude::*;
use crate::model::{
    added, completed, finished, first_with_id, has_id, ids_distinct, is_first_with_id,
    lemma_first_with_id, lemma_first_with_id_found, lemma_max_id, max_id, next_id, persists,
    place_after, place_after_all, removed, reply, run, step, Op,
};
use crate::storage::{loaded, Stored};
use crate::task::{pending, task_views, Task, TaskView};

verus! {

/// The first task of an empty list gets the identifier 1.
pub proof fn law_first_id_is_one(description: Seq<char>)
    ensures
        next_id(Seq::<TaskView>::empty()) == 1,
        added(Seq::<TaskView>::empty(), description) == seq![pending(1, description)],
{
    assert(added(Seq::<TaskView>::empty(), description) =~= seq![pending(1, description)]);
}

/// A list whose greatest identifier is `greatest` gives the next task the
/// identifier `greatest + 1`, which no task of the list has. The tasks that
/// were there stay as they were, in their places, and the new task comes last.
pub proof fn law_next_id_follows_greatest(
    tasks: Seq<TaskView>,
    greatest: nat,
    description: Seq<char>,
)
    requires
        tasks.len() > 0,
        has_id(tasks, greatest),
        forall|i: int| 0 <= i < tasks.len() ==> tasks[i].id <= greatest,
    ensures
        max_id(tasks) == greatest,
        added(tasks, description).len() == tasks.len() + 1,
        added(tasks, description).last() == pending(greatest + 1, description),
        added(tasks, description).drop_last() == tasks,
        !has_id(tasks, greatest + 1),
{
    lemma_max_id(tasks);
    let top = choose|i: int| 0 <= i < tasks.len() && tasks[i].id == max_id(tasks);
    assert(tasks[top].id <= greatest);
    assert(added(tasks, description).drop_last() =~= tasks);
}

/// A command leaves the identifiers pairwise distinct where they were.
pub proof fn law_step_keeps_ids_distinct(tasks: Seq<TaskView>, op: Op)
    requires
        ids_distinct(tasks),
    ensures
        ids_distinct(step(tasks, op)),
{
    match op {
        Op::Add { description } => {
            lemma_max_id(tasks);
        },
        Op::List => {},
        Op::Remove { id } => {
            if has_id(tasks, id) {
                lemma_first_with_id_found(tasks, id);
                let at = first_with_id(tasks, id)->0;
                let after = tasks.remove(at);
                assert forall|i: int, j: int| 0 <= i < j < after.len() implies after[i].id
                    != after[j].id by {
                    let from_i = if i < at { i } else { i + 1 };
                    let from_j = if j < at { j } else { j + 1 };
                    assert(after[i] == tasks[from_i]);
                    assert(after[j] == tasks[from_j]);
                }
            }
        },
        Op::Done { id } => {
            if has_id(tasks, id) {
                lemma_first_with_id_found(tasks, id);
            }
        },
    }
}

/// Whatever commands are carried out, and in whatever order, the identifiers
/// of a list stay pairwise distinct where they were so at the start.
pub proof fn law_ids_stay_distinct(tasks: Seq<TaskView>, ops: Seq<Op>)
    requires
        ids_distinct(tasks),
    ensures
        ids_distinct(run(tasks, ops)),
    decreases ops.len(),
{
    if ops.len() > 0 {
        law_ids_stay_distinct(tasks, ops.drop_last());
        law_step_keeps_ids_distinct(run(tasks, ops.drop_last()), ops.last());
    }
}

/// A list that starts empty never holds two tasks with one identifier, and
/// every identifier in it is positive.
pub proof fn law_ids_from_empty(ops: Seq<Op>)
    ensures
        ids_distinct(run(Seq::<TaskView>::empty(), ops)),
        forall|i: int|
            0 <= i < run(Seq::<TaskView>::empty(), ops).len() ==> (#[trigger] run(
                Seq::<TaskView>::empty(),
                ops,
            )[i]).id >= 1,
    decreases ops.len(),
{
    let start = Seq::<TaskView>::empty();
    law_ids_stay_distinct(start, ops);
    if ops.len() > 0 {
        let before = run(start, ops.drop_last());
        law_ids_from_empty(ops.drop_last());
        match ops.last() {
            Op::Remove { id } => {
                if has_id(before, id) {
                    lemma_first_with_id_found(before, id);
                }
            },
            Op::Done { id } => {
                if has_id(before, id) {
                    lemma_first_with_id_found(before, id);
                }
            },
            _ => {},
        }
    }
}

/// Showing the list changes nothing and asks for nothing to be written,
/// however often it is done.
pub proof fn law_listing_changes_nothing(tasks: Seq<TaskView>, times: nat)
    ensures
        step(tasks, Op::List) == tasks,
        !persists(reply(tasks, Op::List)),
        run(tasks, Seq::new(times, |i: int| Op::List)) == tasks,
    decreases times,
{
    if times > 0 {
        let ops = Seq::new(times, |i: int| Op::List);
        let fewer = Seq::new((times - 1) as nat, |i: int| Op::List);
        assert(ops.drop_last() =~= fewer);
        law_listing_changes_nothing(tasks, (times - 1) as nat);
    }
}

/// A command other than a removal keeps every task in its place, with its
/// identifier and description, and a task that was done stays done.
pub proof fn law_step_keeps_done(tasks: Seq<TaskView>, op: Op, at: int)
    requires
        0 <= at < tasks.len(),
        !(op is Remove),
    ensures
        step(tasks, op).len() >= tasks.len(),
        step(tasks, op)[at].id == tasks[at].id,
        step(tasks, op)[at].description == tasks[at].description,
        tasks[at].done ==> step(tasks, op)[at].done,
{
    if let Op::Done { id } = op {
        if has_id(tasks, id) {
            lemma_first_with_id_found(tasks, id);
        }
    }
}

/// Once a task is done, no sequence of commands without a removal makes it
/// pending again: it keeps its place and every field.
pub proof fn law_done_stays_done(tasks: Seq<TaskView>, ops: Seq<Op>, at: int)
    requires
        0 <= at < tasks.len(),
        tasks[at].done,
        forall|k: int| 0 <= k < ops.len() ==> !(ops[k] is Remove),
    ensures
        run(tasks, ops).len() >= tasks.len(),
        run(tasks, ops)[at] == tasks[at],
    decreases ops.len(),
{
    if ops.len() > 0 {
        let before = ops.drop_last();
        assert forall|k: int| 0 <= k < before.len() implies !(before[k] is Remove) by {
            assert(before[k] == ops[k]);
        }
        law_done_stays_done(tasks, before, at);
        assert(!(ops.last() is Remove)) by {
            assert(ops.last() == ops[ops.len() - 1]);
        }
        law_step_keeps_done(run(tasks, before), ops.last(), at);
    }
}

/// What a command does to one task: it removes it, or it completes it, or it
/// leaves it as it was. A task is completed only by the command that names
/// its identifier, and only the first task with that identifier is. So a task
/// that is still there has its identifier and its description, and is done
/// where it was done before.
pub proof fn law_step_never_reopens(tasks: Seq<TaskView>, op: Op, at: int)
    requires
        0 <= at < tasks.len(),
    ensures
        match place_after(tasks, op, at) {
            Some(place) => {
                &&& 0 <= place < step(tasks, op).len()
                &&& step(tasks, op)[place] == if op is Done && first_with_id(tasks, op->Done_id)
                    == Some(at) {
                    finished(tasks[at])
                } else {
                    tasks[at]
                }
                &&& step(tasks, op)[place].id == tasks[at].id
                &&& step(tasks, op)[place].description == tasks[at].description
                &&& tasks[at].done ==> step(tasks, op)[place].done
            },
            None => op is Remove && tasks[at].id == op->Remove_id,
        },
{
    match op {
        Op::Remove { id } => {
            if has_id(tasks, id) {
                lemma_first_with_id_found(tasks, id);
            }
        },
        Op::Done { id } => {
            if has_id(tasks, id) {
                lemma_first_with_id_found(tasks, id);
            }
        },
        _ => {},
    }
}

/// Once a task is done it stays done for as long as it is in the list:
/// whatever commands follow, removals of other tasks among them, it is either
/// removed or still there with its identifier, its description and its flag.
pub proof fn law_done_stays_done_until_removed(tasks: Seq<TaskView>, ops: Seq<Op>, at: int)
    requires
        0 <= at < tasks.len(),
        tasks[at].done,
    ensures
        match place_after_all(tasks, ops, at) {
            Some(place) => 0 <= place < run(tasks, ops).len() && run(tasks, ops)[place]
                == tasks[at],
            None => exists|k: int| 0 <= k < ops.len() && #[trigger] ops[k] is Remove,
        },
    decreases ops.len(),
{
    if ops.len() > 0 {
        let before = ops.drop_last();
        law_done_stays_done_until_removed(tasks, before, at);
        match place_after_all(tasks, before, at) {
            Some(place) => {
                law_step_never_reopens(run(tasks, before), ops.last(), place);
                if place_after_all(tasks, ops, at) is None {
                    assert(ops[ops.len() - 1] is Remove);
                }
            },
            None => {
                let k = choose|k: int| 0 <= k < before.len() && #[trigger] before[k] is Remove;
                assert(ops[k] is Remove);
            },
        }
    }
}

/// A removal takes one task away and leaves every other task as it was, so
/// it makes no task pending that was done.
pub proof fn law_removal_keeps_the_others(tasks: Seq<TaskView>, id: nat, at: int)
    requires
        is_first_with_id(tasks, id, at),
    ensures
        removed(tasks, id).len() == tasks.len() - 1,
        forall|i: int| 0 <= i < at ==> removed(tasks, id)[i] == tasks[i],
        forall|i: int| at <= i < tasks.len() - 1 ==> removed(tasks, id)[i] == tasks[i + 1],
{
    lemma_first_with_id(tasks, id, at);
}

/// A command whose reply does not ask for the list to be written has left
/// the list as it was: no change is ever dropped.
pub proof fn law_changes_are_written(tasks: Seq<TaskView>, op: Op)
    ensures
        !persists(reply(tasks, op)) ==> step(tasks, op) == tasks,
        persists(reply(tasks, op)) <==> (op is Add || (op is Remove && has_id(tasks, op->Remove_id))
            || (op is Done && has_id(tasks, op->Done_id))),
{
    match op {
        Op::Remove { id } => {
            if has_id(tasks, id) {
                lemma_first_with_id_found(tasks, id);
            }
        },
        _ => {},
    }
}

/// Completing a task a second time changes nothing.
pub proof fn law_completing_twice_is_completing_once(tasks: Seq<TaskView>, id: nat)
    ensures
        completed(completed(tasks, id), id) == completed(tasks, id),
{
    if has_id(tasks, id) {
        lemma_first_with_id_found(tasks, id);
        let at = first_with_id(tasks, id)->0;
        let once = completed(tasks, id);
        assert(is_first_with_id(once, id, at));
        lemma_first_with_id(once, id, at);
        assert(completed(once, id) =~= once);
    } else {
        assert(!has_id(completed(tasks, id), id));
    }
}

/// Tasks that the storage hands back as it was given them give the list that
/// was stored, equal in order and in every field; missing, unreadable and
/// undecodable storage give the empty list.
pub proof fn law_stored_tasks_come_back(tasks: Vec<Task>)
    ensures
        loaded(Stored::Tasks(tasks)) == task_views(tasks@),
        loaded(Stored::Tasks(tasks)).len() == tasks@.len(),
        forall|i: int|
            0 <= i < tasks@.len() ==> {
                &&& (#[trigger] loaded(Stored::Tasks(tasks))[i]).id == tasks@[i].id
                &&& loaded(Stored::Tasks(tasks))[i].description == tasks@[i].description@
                &&& loaded(Stored::Tasks(tasks))[i].done == tasks@[i].done
            },
        loaded(Stored::Missing) == Seq::<TaskView>::empty(),
        loaded(Stored::Unreadable) == Seq::<TaskView>::empty(),
        loaded(Stored::Undecodable) == Seq::<TaskView>::empty(),
{
}

/// A run that finds no storage and adds a task ends with exactly that task,
/// pending and under the identifier 1, and asks for the list to be written.
pub proof fn law_first_run(description: Seq<char>)
    ensures
        step(loaded(Stored::Missing), Op::Add { description }) == seq![pending(1, description)],
        persists(reply(loaded(Stored::Missing), Op::Add { description })),
{
    law_first_id_is_one(description);
}

} // verus!
