//! Saving and loading the task list.
//!
//! The list is stored as a sequence of [`TaskRecord`]s. Touching the file is
//! the caller's part: it tells what it found at the path or how the writing
//! went, and the functions here decide what follows from that.

use crate::error::{
    file_exists, file_unavailable, missing_file, read_failed, unreadable_data, unwritable_data,
    write_failed, TaskError,
};
use crate::manager::TasksManager;
use crate::search::{first, lemma_first_is};
use crate::task::{RecordView, Task, TaskRecord, TaskView};
use vstd::prelude::*;

verus! {

/// What the caller found at the path to load from.
#[derive(Clone, Debug, PartialEq, Eq)]
pub enum FileRead {
    /// No file is at the path.
    Missing,
    /// The file is there but could not be opened; the text says why.
    OpenFailed(String),
    /// The file was opened but its bytes could not be read; the text says why.
    ReadFailed(String),
    /// The content is not a list of records; the text says why.
    Malformed(String),
    /// The records that the file holds, in their order.
    Records(Vec<TaskRecord>),
}

/// How the writing of the records went.
#[derive(Clone, Debug, PartialEq, Eq)]
pub enum WriteOutcome {
    /// The file was created and holds the records.
    Written,
    /// The file could not be created; the text says why.
    CreateFailed(String),
    /// The records could not be encoded; the text says why.
    EncodeFailed(String),
    /// The file was created but the writing failed; the text says why.
    WriteFailed(String),
}

/// The values of a sequence of records.
pub open spec fn record_views(records: Seq<TaskRecord>) -> Seq<RecordView> {
    Seq::new(records.len(), |at: int| records[at]@)
}

/// The position of the first task that has no stored form, if there is one.
pub open spec fn first_unwritable(tasks: Seq<TaskView>) -> Option<int> {
    first(|at: int| tasks[at].record() is None, tasks.len() as int)
}

/// The stored forms of the tasks, in their order. It is meant for tasks that
/// all have one.
pub open spec fn records_of(tasks: Seq<TaskView>) -> Seq<RecordView> {
    Seq::new(tasks.len(), |at: int| tasks[at].record().unwrap())
}

/// The position of the first record that stands for no task, if there is one.
pub open spec fn first_unreadable(records: Seq<RecordView>) -> Option<int> {
    first(|at: int| records[at].task() is None, records.len() as int)
}

/// The tasks that the records stand for, in their order. It is meant for
/// records that all stand for one.
pub open spec fn tasks_of(records: Seq<RecordView>) -> Seq<TaskView> {
    Seq::new(records.len(), |at: int| records[at].task().unwrap())
}

/// The message after the list was saved.
pub open spec fn stored_text() -> Seq<char> {
    "Data stored successfully"@
}

/// The message after the list was loaded.
pub open spec fn loaded_text() -> Seq<char> {
    "Data read successfully"@
}

impl TasksManager {
    /// The stored forms of all tasks, in their order. Fails with
    /// [`crate::error::ErrorKind::Serialize`] at the first task whose
    /// creation time cannot be written.
    pub fn to_records(&self) -> (records: Result<Vec<TaskRecord>, TaskError>)
        ensures
            match first_unwritable(self@) {
                None => records matches Ok(made) && record_views(made@) == records_of(self@),
                Some(at) => records matches Err(error) && error@ == unwritable_data(
                    self@[at].record_fault(),
                ),
            },
    {
        let tasks = self.tasks();
        let mut made: Vec<TaskRecord> = Vec::new();
        let mut at: usize = 0;
        while at < tasks.len()
            invariant
                self@ == Seq::new(tasks@.len(), |at: int| tasks@[at]@),
                at <= tasks@.len(),
                made@.len() == at,
                forall|done: int|
                    0 <= done < at ==> (#[trigger] self@[done]).record() == Some(made@[done]@),
            decreases tasks@.len() - at,
        {
            match tasks[at].to_record() {
                Some(record) => {
                    made.push(record);
                },
                None => {
                    let detail = tasks[at].record_fault();
                    proof {
                        lemma_first_is(
                            |at: int| self@[at].record() is None,
                            self@.len() as int,
                            at as int,
                        );
                    }
                    return Err(TaskError::unwritable_data(detail.as_str()));
                },
            }
            at += 1;
        }
        assert(record_views(made@) =~= records_of(self@));
        Ok(made)
    }

    /// The first step of saving to `filename`: what is to be written there.
    /// The caller says whether anything is at the path already. The list
    /// never replaces a file: where one exists, saving fails with
    /// [`crate::error::ErrorKind::AlreadyExists`] and nothing is to be
    /// written.
    pub fn begin_save(&self, filename: &str, exists: bool) -> (records: Result<
        Vec<TaskRecord>,
        TaskError,
    >)
        ensures
            exists ==> (records matches Err(error) && error@ == file_exists(filename@)),
            !exists ==> (match first_unwritable(self@) {
                None => records matches Ok(made) && record_views(made@) == records_of(self@),
                Some(at) => records matches Err(error) && error@ == unwritable_data(
                    self@[at].record_fault(),
                ),
            }),
    {
        if exists {
            Err(TaskError::file_exists(filename))
        } else {
            self.to_records()
        }
    }

    /// The last step of saving: the message or the failure that follows
    /// from how the writing went.
    pub fn finish_save(outcome: &WriteOutcome) -> (saved: Result<String, TaskError>)
        ensures
            match *outcome {
                WriteOutcome::Written => saved matches Ok(message) && message@ == stored_text(),
                WriteOutcome::CreateFailed(detail) => saved matches Err(error) && error@
                    == file_unavailable(detail@),
                WriteOutcome::EncodeFailed(detail) => saved matches Err(error) && error@
                    == unwritable_data(detail@),
                WriteOutcome::WriteFailed(detail) => saved matches Err(error) && error@
                    == write_failed(detail@),
            },
    {
        match outcome {
            WriteOutcome::Written => Ok(String::from_str("Data stored successfully")),
            WriteOutcome::CreateFailed(detail) => Err(TaskError::file_unavailable(detail.as_str())),
            WriteOutcome::EncodeFailed(detail) => Err(TaskError::unwritable_data(detail.as_str())),
            WriteOutcome::WriteFailed(detail) => Err(TaskError::write_failed(detail.as_str())),
        }
    }

    /// The list that a sequence of records stands for. Fails with
    /// [`crate::error::ErrorKind::Deserialize`] at the first record that
    /// stands for no task.
    pub fn from_records(records: &Vec<TaskRecord>) -> (read: Result<TasksManager, TaskError>)
        ensures
            match first_unreadable(record_views(records@)) {
                None => read matches Ok(manager) && manager@ == tasks_of(record_views(records@)),
                Some(at) => read matches Err(error) && error@ == unreadable_data(
                    records@[at]@.fault(),
                ),
            },
    {
        let mut tasks: Vec<Task> = Vec::new();
        let mut at: usize = 0;
        while at < records.len()
            invariant
                at <= records@.len(),
                tasks@.len() == at,
                forall|done: int|
                    0 <= done < at ==> (#[trigger] records@[done])@.task() == Some(tasks@[done]@),
            decreases records@.len() - at,
        {
            match Task::from_record(&records[at]) {
                Ok(task) => {
                    tasks.push(task);
                },
                Err(error) => {
                    proof {
                        let views = record_views(records@);
                        assert forall|before: int| 0 <= before < at implies views[before].task()
                            is Some by {
                            assert(records@[before]@.task() is Some);
                        }
                        lemma_first_is(
                            |at: int| views[at].task() is None,
                            views.len() as int,
                            at as int,
                        );
                    }
                    return Err(error);
                },
            }
            at += 1;
        }
        let manager = TasksManager::from_tasks(tasks);
        proof {
            let views = record_views(records@);
            assert forall|each: int| 0 <= each < views.len() implies views[each].task()
                is Some by {
                assert(records@[each]@.task() is Some);
            }
            assert(manager@ =~= tasks_of(views));
        }
        Ok(manager)
    }

    /// Loads the list from what the caller found at `filename`. The records
    /// replace the whole list, and only where every one of them stands for a
    /// task. On any failure the list stays as it was.
    pub fn load(&mut self, filename: &str, read: &FileRead) -> (loaded: Result<String, TaskError>)
        ensures
            match *read {
                FileRead::Missing => {
                    &&& final(self)@ == old(self)@
                    &&& loaded matches Err(error)
                    &&& error@ == missing_file(filename@)
                },
                FileRead::OpenFailed(detail) => {
                    &&& final(self)@ == old(self)@
                    &&& loaded matches Err(error)
                    &&& error@ == file_unavailable(detail@)
                },
                FileRead::ReadFailed(detail) => {
                    &&& final(self)@ == old(self)@
                    &&& loaded matches Err(error)
                    &&& error@ == read_failed(detail@)
                },
                FileRead::Malformed(detail) => {
                    &&& final(self)@ == old(self)@
                    &&& loaded matches Err(error)
                    &&& error@ == unreadable_data(detail@)
                },
                FileRead::Records(records) => match first_unreadable(record_views(records@)) {
                    None => {
                        &&& final(self)@ == tasks_of(record_views(records@))
                        &&& loaded matches Ok(message)
                        &&& message@ == loaded_text()
                    },
                    Some(at) => {
                        &&& final(self)@ == old(self)@
                        &&& loaded matches Err(error)
                        &&& error@ == unreadable_data(records@[at]@.fault())
                    },
                },
            },
    {
        match read {
            FileRead::Missing => Err(TaskError::missing_file(filename)),
            FileRead::OpenFailed(detail) => Err(TaskError::file_unavailable(detail.as_str())),
            FileRead::ReadFailed(detail) => Err(TaskError::read_failed(detail.as_str())),
            FileRead::Malformed(detail) => Err(TaskError::unreadable_data(detail.as_str())),
            FileRead::Records(records) => {
                match TasksManager::from_records(records) {
                    Ok(manager) => {
                        *self = manager;
                        Ok(String::from_str("Data read successfully"))
                    },
                    Err(error) => Err(error),
                }
            },
        }
    }
}

} // verus!
