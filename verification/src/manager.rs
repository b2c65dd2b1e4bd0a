//! The ordered collection of tasks and its operations by name.

use crate::error::{missing_task, TaskError};
use crate::search::{first, lemma_first, lemma_first_is};
use crate::task::{Task, TaskView};
use crate::text::same_text;
use vstd::prelude::*;

verus! {

/// The position of the first task with the name, if any task has it.
pub open spec fn first_named(tasks: Seq<TaskView>, name: Seq<char>) -> Option<int> {
    first(|at: int| tasks[at].name == name, tasks.len() as int)
}

/// The list without the first task that has the name. Where no task has
/// it, the list as it is.
pub open spec fn after_remove(tasks: Seq<TaskView>, name: Seq<char>) -> Seq<TaskView> {
    match first_named(tasks, name) {
        Some(at) => tasks.remove(at),
        None => tasks,
    }
}

/// The list in which the first task that has the name took over the name,
/// description and priority of `updated`. Where no task has the name, the
/// list as it is.
pub open spec fn after_edit(tasks: Seq<TaskView>, name: Seq<char>, updated: TaskView) -> Seq<
    TaskView,
> {
    match first_named(tasks, name) {
        Some(at) => tasks.update(at, tasks[at].revised(updated)),
        None => tasks,
    }
}

/// The texts shown for the tasks, in their order.
pub open spec fn rendered(tasks: Seq<TaskView>) -> Seq<Seq<char>> {
    Seq::new(tasks.len(), |at: int| tasks[at].render())
}

/// The characters of each text of a sequence.
pub open spec fn texts(lines: Seq<String>) -> Seq<Seq<char>> {
    Seq::new(lines.len(), |at: int| lines[at]@)
}

/// The message after a task was removed.
pub open spec fn removed_text(name: Seq<char>) -> Seq<char> {
    "Task \""@ + name + "\" removed successfully"@
}

/// The message after a task was edited.
pub open spec fn updated_text(name: Seq<char>) -> Seq<char> {
    "Task \""@ + name + "\" updated successfully"@
}

/// The owner of the task list. Tasks stay in the order in which they were
/// added; names may repeat, and every operation by name takes the first task
/// that has it.
#[derive(Clone, Debug, PartialEq, Eq)]
pub struct TasksManager {
    tasks: Vec<Task>,
}

impl View for TasksManager {
    type V = Seq<TaskView>;

    closed spec fn view(&self) -> Seq<TaskView> {
        Seq::new(self.tasks@.len(), |at: int| self.tasks@[at]@)
    }
}

impl TasksManager {
    /// An empty list.
    pub fn new() -> (manager: TasksManager)
        ensures
            manager@ == Seq::<TaskView>::empty(),
    {
        let manager = TasksManager { tasks: Vec::new() };
        assert(manager@ =~= Seq::<TaskView>::empty());
        manager
    }

    /// A list of the given tasks, in their order.
    pub fn from_tasks(tasks: Vec<Task>) -> (manager: TasksManager)
        ensures
            manager@ == Seq::new(tasks@.len(), |at: int| tasks@[at]@),
    {
        TasksManager { tasks }
    }

    /// The number of tasks.
    pub fn len(&self) -> (count: usize)
        ensures
            count == self@.len(),
    {
        self.tasks.len()
    }

    /// The tasks, in their order.
    pub fn tasks(&self) -> (tasks: &Vec<Task>)
        ensures
            self@ == Seq::new(tasks@.len(), |at: int| tasks@[at]@),
    {
        &self.tasks
    }

    /// The task at a position, if the list is that long.
    pub fn get(&self, at: usize) -> (task: Option<&Task>)
        ensures
            match task {
                Some(found) => at < self@.len() && found@ == self@[at as int],
                None => at >= self@.len(),
            },
    {
        if at < self.tasks.len() {
            Some(&self.tasks[at])
        } else {
            None
        }
    }

    /// Appends a task. Names are not compared: a name may be added twice.
    pub fn add_task(&mut self, task: Task)
        ensures
            final(self)@ == old(self)@.push(task@),
    {
        self.tasks.push(task);
        assert(self@ =~= old(self)@.push(task@));
    }

    /// The position of the first task with exactly this name.
    pub fn find_task(&self, name: &str) -> (found: Option<usize>)
        ensures
            match found {
                Some(at) => first_named(self@, name@) == Some(at as int),
                None => first_named(self@, name@) is None,
            },
    {
        let mut at: usize = 0;
        while at < self.tasks.len()
            invariant
                at <= self.tasks@.len(),
                forall|before: int| 0 <= before < at ==> (#[trigger] self@[before]).name != name@,
            decreases self.tasks@.len() - at,
        {
            if same_text(self.tasks[at].name(), name) {
                proof {
                    lemma_first_is(|at: int| self@[at].name == name@, self@.len() as int, at as int);
                }
                return Some(at);
            }
            at += 1;
        }
        proof {
            lemma_first(|at: int| self@[at].name == name@, self@.len() as int);
        }
        None
    }

    /// Removes the first task with the name. Fails, and changes nothing,
    /// where no task has it.
    pub fn remove_task(&mut self, name: &str) -> (removed: Result<String, TaskError>)
        ensures
            final(self)@ == after_remove(old(self)@, name@),
            match first_named(old(self)@, name@) {
                Some(_) => removed matches Ok(message) && message@ == removed_text(name@),
                None => removed matches Err(error) && error@ == missing_task(name@),
            },
    {
        match self.find_task(name) {
            Some(at) => {
                self.tasks.remove(at);
                assert(self@ =~= old(self)@.remove(at as int));
                Ok(String::from_str("Task \"").concat(name).concat("\" removed successfully"))
            },
            None => Err(TaskError::missing_task(name)),
        }
    }

    /// Gives the first task with the name the name, description and
    /// priority of `updated`; its creation time stays. Fails, and changes
    /// nothing, where no task has the name.
    pub fn edit_task(&mut self, name: &str, updated: Task) -> (edited: Result<String, TaskError>)
        ensures
            final(self)@ == after_edit(old(self)@, name@, updated@),
            match first_named(old(self)@, name@) {
                Some(_) => edited matches Ok(message) && message@ == updated_text(name@),
                None => edited matches Err(error) && error@ == missing_task(name@),
            },
    {
        match self.find_task(name) {
            Some(at) => {
                self.tasks[at].revise(updated);
                assert(self@ =~= old(self)@.update(at as int, old(self)@[at as int].revised(updated@)));
                Ok(String::from_str("Task \"").concat(name).concat("\" updated successfully"))
            },
            None => Err(TaskError::missing_task(name)),
        }
    }

    /// The text shown for each task, in the order of the list.
    pub fn list(&self) -> (lines: Vec<String>)
        ensures
            texts(lines@) == rendered(self@),
    {
        let mut lines: Vec<String> = Vec::new();
        let mut at: usize = 0;
        while at < self.tasks.len()
            invariant
                at <= self.tasks@.len(),
                lines@.len() == at,
                forall|done: int| 0 <= done < at ==> lines@[done]@ == (#[trigger] self@[done]).render(),
            decreases self.tasks@.len() - at,
        {
            lines.push(self.tasks[at].render());
            at += 1;
        }
        assert(texts(lines@) =~= rendered(self@));
        lines
    }
}

} // verus!
