//! The task record and its stored form.

use crate::error::{unreadable_data, TaskError};
use crate::priority::{lowercased, Priority};
use crate::timestamp::{Moment, Timestamp};
use vstd::prelude::*;

verus! {

/// The mathematical value of a [`Task`].
pub ghost struct TaskView {
    pub name: Seq<char>,
    pub description: Seq<char>,
    pub priority: Priority,
    pub add_time: Moment,
}

/// The mathematical value of a [`TaskRecord`].
pub ghost struct RecordView {
    pub name: Seq<char>,
    pub description: Seq<char>,
    pub priority: Seq<char>,
    pub add_time: Seq<char>,
}

impl TaskView {
    /// The text shown for a task whose creation time reads `clock`: the
    /// name, the priority label and the time on one line, and the description
    /// in quotes on the next.
    pub open spec fn render_with(self, clock: Seq<char>) -> Seq<char> {
        self.name + " | "@ + self.priority.label() + " | "@ + clock + "\n\""@ + self.description
            + "\"\n"@
    }

    /// The text shown for a task, with the clock text of its creation time.
    pub open spec fn render(self) -> Seq<char> {
        self.render_with(self.add_time.clock_text())
    }

    /// The task with the name, description and priority of `other`, and its
    /// own creation time.
    pub open spec fn revised(self, other: TaskView) -> TaskView {
        TaskView {
            name: other.name,
            description: other.description,
            priority: other.priority,
            add_time: self.add_time,
        }
    }

    /// The stored form of the task, with `written` for its creation time.
    pub open spec fn record_with(self, written: Seq<char>) -> RecordView {
        RecordView {
            name: self.name,
            description: self.description,
            priority: self.priority.label(),
            add_time: written,
        }
    }

    /// The stored form of the task, which exists where its creation time can
    /// be written.
    pub open spec fn record(self) -> Option<RecordView> {
        match self.add_time.rfc3339() {
            Some(written) => Some(self.record_with(written)),
            None => None,
        }
    }

    /// Why the task has no stored form.
    pub open spec fn record_fault(self) -> Seq<char> {
        "the creation time of task \""@ + self.name + "\" cannot be written"@
    }
}

impl RecordView {
    /// The task that the record stands for, if its priority is one of the
    /// three labels and its creation time can be read.
    pub open spec fn task(self) -> Option<TaskView> {
        match (Priority::of_label(self.priority), Moment::of_rfc3339(self.add_time)) {
            (Some(priority), Some(add_time)) => Some(
                TaskView { name: self.name, description: self.description, priority, add_time },
            ),
            _ => None,
        }
    }

    /// Why the record stands for no task: the priority is named first, the
    /// creation time only where the priority is in order.
    pub open spec fn fault(self) -> Seq<char> {
        if Priority::of_label(self.priority) is None {
            "unknown priority \""@ + self.priority + "\""@
        } else {
            "invalid creation time \""@ + self.add_time + "\""@
        }
    }
}

/// One to-do item. The creation time is set when the task is made and stays
/// as it is.
#[derive(Clone, Debug, PartialEq, Eq)]
pub struct Task {
    name: String,
    description: String,
    priority: Priority,
    add_time: Timestamp,
}

/// The stored form of a task: four texts, as they stand in a file.
#[derive(Clone, Debug, PartialEq, Eq)]
pub struct TaskRecord {
    pub name: String,
    pub description: String,
    /// One of the labels "Low", "Medium" and "High".
    pub priority: String,
    /// The creation time as RFC 3339 text with its offset.
    pub add_time: String,
}

impl View for Task {
    type V = TaskView;

    closed spec fn view(&self) -> TaskView {
        TaskView {
            name: self.name@,
            description: self.description@,
            priority: self.priority,
            add_time: self.add_time@,
        }
    }
}

impl View for TaskRecord {
    type V = RecordView;

    open spec fn view(&self) -> RecordView {
        RecordView {
            name: self.name@,
            description: self.description@,
            priority: self.priority@,
            add_time: self.add_time@,
        }
    }
}

impl Task {
    /// A task created now, on the local clock.
    pub fn new(name: String, description: String, priority: Priority) -> (task: Task)
        ensures
            task@.name == name@,
            task@.description == description@,
            task@.priority == priority,
            task@.add_time.valid(),
    {
        Task { name, description, priority, add_time: Timestamp::now() }
    }

    /// A task with a given creation time.
    pub fn with_time(name: String, description: String, priority: Priority, add_time: Timestamp) -> (task:
        Task)
        ensures
            task@ == (TaskView {
                name: name@,
                description: description@,
                priority,
                add_time: add_time@,
            }),
    {
        Task { name, description, priority, add_time }
    }

    /// A task created now from what a person typed. The flag tells whether
    /// the priority was recognised; where it was not, the task gets
    /// [`Priority::Low`].
    pub fn from_input(name: String, description: String, priority: &str) -> (made: (Task, bool))
        ensures
            made.0@.name == name@,
            made.0@.description == description@,
            made.0@.add_time.valid(),
            made.1 == Priority::of_lowered(lowercased(priority@)) is Some,
            made.0@.priority == match Priority::of_lowered(lowercased(priority@)) {
                Some(known) => known,
                None => Priority::Low,
            },
    {
        match Priority::from_text(priority) {
            Some(known) => (Task::new(name, description, known), true),
            None => (Task::new(name, description, Priority::Low), false),
        }
    }

    /// The name.
    pub fn name(&self) -> (name: &str)
        ensures
            name@ == self@.name,
    {
        self.name.as_str()
    }

    /// The description.
    pub fn description(&self) -> (description: &str)
        ensures
            description@ == self@.description,
    {
        self.description.as_str()
    }

    /// The priority.
    pub fn priority(&self) -> (priority: Priority)
        ensures
            priority == self@.priority,
    {
        self.priority
    }

    /// The creation time.
    pub fn add_time(&self) -> (add_time: Timestamp)
        ensures
            add_time@ == self@.add_time,
    {
        self.add_time
    }

    /// Takes over the name, description and priority of `other`. The
    /// creation time stays.
    pub fn revise(&mut self, other: Task)
        ensures
            final(self)@ == old(self)@.revised(other@),
    {
        self.name = other.name;
        self.description = other.description;
        self.priority = other.priority;
    }

    /// The text shown for the task, with `clock` in the place of its
    /// creation time.
    pub fn render_with(&self, clock: &str) -> (text: String)
        ensures
            text@ == self@.render_with(clock@),
    {
        let label = self.priority.to_string();
        String::from_str(self.name.as_str()).concat(" | ").concat(label.as_str()).concat(
            " | ",
        ).concat(clock).concat("\n\"").concat(self.description.as_str()).concat("\"\n")
    }

    /// The text shown for the task.
    pub fn render(&self) -> (text: String)
        ensures
            text@ == self@.render(),
    {
        let clock = self.add_time.to_clock_text();
        self.render_with(clock.as_str())
    }

    /// The stored form of the task, or `None` where its creation time
    /// cannot be written.
    pub fn to_record(&self) -> (record: Option<TaskRecord>)
        ensures
            match record {
                Some(made) => self@.record() == Some(made@),
                None => self@.record() is None,
            },
    {
        match self.add_time.to_rfc3339() {
            Some(written) => Some(self.record_with(written)),
            None => None,
        }
    }

    /// The stored form of the task, with `written` for its creation time.
    pub fn record_with(&self, written: String) -> (record: TaskRecord)
        ensures
            record@ == self@.record_with(written@),
    {
        TaskRecord {
            name: self.name.clone(),
            description: self.description.clone(),
            priority: self.priority.to_string(),
            add_time: written,
        }
    }

    /// Why the task has no stored form, as a message.
    pub fn record_fault(&self) -> (text: String)
        ensures
            text@ == self@.record_fault(),
    {
        String::from_str("the creation time of task \"").concat(self.name.as_str()).concat(
            "\" cannot be written",
        )
    }

    /// The task that a record stands for. Fails with
    /// [`crate::error::ErrorKind::Deserialize`] where the record stands for
    /// none.
    pub fn from_record(record: &TaskRecord) -> (read: Result<Task, TaskError>)
        ensures
            match read {
                Ok(task) => record@.task() == Some(task@),
                Err(error) => record@.task() is None && error@ == unreadable_data(record@.fault()),
            },
    {
        let priority = match Priority::from_label(record.priority.as_str()) {
            Some(priority) => priority,
            None => {
                let detail = String::from_str("unknown priority \"").concat(
                    record.priority.as_str(),
                ).concat("\"");
                return Err(TaskError::unreadable_data(detail.as_str()));
            },
        };
        let add_time = match Timestamp::from_rfc3339(record.add_time.as_str()) {
            Some(add_time) => add_time,
            None => {
                let detail = String::from_str("invalid creation time \"").concat(
                    record.add_time.as_str(),
                ).concat("\"");
                return Err(TaskError::unreadable_data(detail.as_str()));
            },
        };
        Ok(
            Task {
                name: record.name.clone(),
                description: record.description.clone(),
                priority,
                add_time,
            },
        )
    }
}

} // verus!
