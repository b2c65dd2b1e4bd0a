//! What holds of the task list across its operations.

use crate::manager::{after_edit, after_remove, first_named, rendered};
use crate::search::lemma_first;
use crate::storage::{first_unreadable, first_unwritable, records_of, tasks_of};
use crate::task::TaskView;
use crate::timestamp::Moment;
use vstd::prelude::*;

verus! {

/// The list after the tasks of `added` were added to `start`, one after the
/// other.
pub open spec fn after_adds(start: Seq<TaskView>, added: Seq<TaskView>) -> Seq<TaskView>
    decreases added.len(),
{
    if added.len() == 0 {
        start
    } else {
        after_adds(start.push(added.first()), added.drop_first())
    }
}

/// Adding tasks one after the other appends them in that order.
pub proof fn lemma_adds_append(start: Seq<TaskView>, added: Seq<TaskView>)
    ensures
        after_adds(start, added) == start + added,
    decreases added.len(),
{
    if added.len() == 0 {
        assert(start + added =~= start);
    } else {
        lemma_adds_append(start.push(added.first()), added.drop_first());
        assert(start.push(added.first()) + added.drop_first() =~= start + added);
    }
}

/// Whatever tasks are added to an empty list, the list shows them in the
/// order in which they were added.
pub proof fn lemma_list_keeps_order(added: Seq<TaskView>)
    ensures
        after_adds(Seq::empty(), added) == added,
        rendered(after_adds(Seq::empty(), added)) == Seq::new(
            added.len(),
            |at: int| added[at].render(),
        ),
{
    lemma_adds_append(Seq::empty(), added);
    assert(Seq::<TaskView>::empty() + added =~= added);
}

/// A lookup by name finds the first task with the name, however many have
/// it, and finds nothing only where no task has it.
pub proof fn lemma_find_is_first(tasks: Seq<TaskView>, name: Seq<char>)
    ensures
        match first_named(tasks, name) {
            Some(at) => {
                &&& 0 <= at < tasks.len()
                &&& tasks[at].name == name
                &&& forall|before: int| 0 <= before < at ==> (#[trigger] tasks[before]).name != name
            },
            None => forall|at: int| 0 <= at < tasks.len() ==> (#[trigger] tasks[at]).name != name,
        },
{
    let named = |at: int| tasks[at].name == name;
    lemma_first(named, tasks.len() as int);
    match first_named(tasks, name) {
        Some(at) => {
            assert forall|before: int| 0 <= before < at implies (#[trigger] tasks[before]).name
                != name by {
                assert(!named(before));
            }
        },
        None => {
            assert forall|at: int| 0 <= at < tasks.len() implies (#[trigger] tasks[at]).name
                != name by {
                assert(!named(at));
            }
        },
    }
}

/// A name that was never added is not found.
pub proof fn lemma_find_never_added(added: Seq<TaskView>, name: Seq<char>)
    requires
        forall|at: int| 0 <= at < added.len() ==> (#[trigger] added[at]).name != name,
    ensures
        first_named(after_adds(Seq::empty(), added), name) is None,
{
    lemma_list_keeps_order(added);
    lemma_find_is_first(added, name);
}

/// Removing a name that is present makes the list shorter by exactly one
/// task and leaves the other tasks in their order. Where the name was there
/// only once, it is not found afterwards.
pub proof fn lemma_remove_present(tasks: Seq<TaskView>, name: Seq<char>, at: int)
    requires
        first_named(tasks, name) == Some(at),
    ensures
        after_remove(tasks, name).len() == tasks.len() - 1,
        after_remove(tasks, name) == tasks.take(at) + tasks.skip(at + 1),
        (forall|other: int|
            0 <= other < tasks.len() && other != at ==> (#[trigger] tasks[other]).name != name)
            ==> first_named(after_remove(tasks, name), name) is None,
{
    lemma_find_is_first(tasks, name);
    let rest = after_remove(tasks, name);
    assert(rest =~= tasks.take(at) + tasks.skip(at + 1));
    if forall|other: int|
        0 <= other < tasks.len() && other != at ==> (#[trigger] tasks[other]).name != name {
        assert forall|each: int| 0 <= each < rest.len() implies (#[trigger] rest[each]).name
            != name by {
            if each < at {
                assert(rest[each] == tasks[each]);
            } else {
                assert(rest[each] == tasks[each + 1]);
            }
        }
        lemma_find_is_first(rest, name);
    }
}

/// Removing a name that is absent leaves the list as it is.
pub proof fn lemma_remove_absent(tasks: Seq<TaskView>, name: Seq<char>)
    requires
        first_named(tasks, name) is None,
    ensures
        after_remove(tasks, name) == tasks,
{
}

/// Editing gives the first task with the name its new name, description
/// and priority, keeps its creation time, and leaves every other task as it
/// is.
pub proof fn lemma_edit_keeps_creation_time(
    tasks: Seq<TaskView>,
    name: Seq<char>,
    updated: TaskView,
    at: int,
)
    requires
        first_named(tasks, name) == Some(at),
    ensures
        after_edit(tasks, name, updated).len() == tasks.len(),
        after_edit(tasks, name, updated)[at].add_time == tasks[at].add_time,
        after_edit(tasks, name, updated)[at].name == updated.name,
        after_edit(tasks, name, updated)[at].description == updated.description,
        after_edit(tasks, name, updated)[at].priority == updated.priority,
        forall|other: int|
            0 <= other < tasks.len() && other != at ==> after_edit(tasks, name, updated)[other]
                == tasks[other],
{
    lemma_find_is_first(tasks, name);
}

/// Editing a name that is absent leaves the list as it is.
pub proof fn lemma_edit_absent(tasks: Seq<TaskView>, name: Seq<char>, updated: TaskView)
    requires
        first_named(tasks, name) is None,
    ensures
        after_edit(tasks, name, updated) == tasks,
{
}

/// Whether a creation time survives being written and read back.
pub open spec fn time_survives(moment: Moment) -> bool {
    match moment.rfc3339() {
        Some(written) => Moment::of_rfc3339(written) == Some(moment),
        None => false,
    }
}

/// A task whose creation time survives being written and read back
/// survives as a whole: its stored form stands for the same task.
pub proof fn lemma_record_stands_for_task(task: TaskView)
    requires
        time_survives(task.add_time),
    ensures
        task.record() is Some,
        task.record().unwrap().task() == Some(task),
{
    crate::priority::lemma_label_round_trip(task.priority);
}

/// Where every creation time survives being written and read back, the
/// stored forms of a list can all be made and stand for the same tasks in
/// the same order.
pub proof fn lemma_stored_list_stands_for_tasks(tasks: Seq<TaskView>)
    requires
        forall|at: int| 0 <= at < tasks.len() ==> time_survives(#[trigger] tasks[at].add_time),
    ensures
        first_unwritable(tasks) is None,
        first_unreadable(records_of(tasks)) is None,
        tasks_of(records_of(tasks)) == tasks,
{
    let records = records_of(tasks);
    assert forall|at: int| 0 <= at < tasks.len() implies (#[trigger] tasks[at]).record() is Some
        && records[at].task() == Some(tasks[at]) by {
        assert(time_survives(tasks[at].add_time));
        lemma_record_stands_for_task(tasks[at]);
    }
    lemma_first(|at: int| tasks[at].record() is None, tasks.len() as int);
    lemma_first(|at: int| records[at].task() is None, records.len() as int);
    assert(tasks_of(records) =~= tasks);
}

} // verus!
