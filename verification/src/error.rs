//! The failures that the task list reports, each with a message for the
//! person at the keyboard.

use vstd::prelude::*;

verus! {

/// What went wrong.
#[derive(Clone, Copy, Debug, PartialEq, Eq, Structural)]
pub enum ErrorKind {
    /// No task has the name, or no file is at the path.
    NotFound,
    /// A file is already at the path to write to.
    AlreadyExists,
    /// The file could not be opened, created, read or written.
    Io,
    /// The tasks could not be brought into their stored form.
    Serialize,
    /// The stored form could not be read back into tasks.
    Deserialize,
}

/// A failure: its kind and the message to show.
#[derive(Clone, Debug, PartialEq, Eq)]
pub struct TaskError {
    pub kind: ErrorKind,
    pub message: String,
}

/// The mathematical value of a [`TaskError`].
pub ghost struct Failure {
    pub kind: ErrorKind,
    pub message: Seq<char>,
}

impl View for TaskError {
    type V = Failure;

    open spec fn view(&self) -> Failure {
        Failure { kind: self.kind, message: self.message@ }
    }
}

/// The failure of a lookup by task name.
pub open spec fn missing_task(name: Seq<char>) -> Failure {
    Failure { kind: ErrorKind::NotFound, message: "Task with name \""@ + name + "\" doesn't exist"@ }
}

/// The failure of reading from a path where no file is.
pub open spec fn missing_file(filename: Seq<char>) -> Failure {
    Failure { kind: ErrorKind::NotFound, message: "File \""@ + filename + "\" doesn't exist"@ }
}

/// The failure of writing to a path where a file already is.
pub open spec fn file_exists(filename: Seq<char>) -> Failure {
    Failure {
        kind: ErrorKind::AlreadyExists,
        message: "File \""@ + filename + "\" already exists"@,
    }
}

/// The failure of opening or creating the file.
pub open spec fn file_unavailable(detail: Seq<char>) -> Failure {
    Failure { kind: ErrorKind::Io, message: "Error creating file: "@ + detail }
}

/// The failure of writing the stored form to the file.
pub open spec fn write_failed(detail: Seq<char>) -> Failure {
    Failure { kind: ErrorKind::Io, message: "Error saving data: "@ + detail }
}

/// The failure of reading the bytes of the file.
pub open spec fn read_failed(detail: Seq<char>) -> Failure {
    Failure { kind: ErrorKind::Io, message: "Error reading file: "@ + detail }
}

/// The failure of bringing the tasks into their stored form.
pub open spec fn unwritable_data(detail: Seq<char>) -> Failure {
    Failure { kind: ErrorKind::Serialize, message: "Error saving data: "@ + detail }
}

/// The failure of reading the stored form back.
pub open spec fn unreadable_data(detail: Seq<char>) -> Failure {
    Failure { kind: ErrorKind::Deserialize, message: "Error reading file: "@ + detail }
}

impl TaskError {
    /// See [`missing_task`].
    pub fn missing_task(name: &str) -> (error: TaskError)
        ensures
            error@ == missing_task(name@),
    {
        let message = String::from_str("Task with name \"").concat(name).concat("\" doesn't exist");
        TaskError { kind: ErrorKind::NotFound, message }
    }

    /// See [`missing_file`].
    pub fn missing_file(filename: &str) -> (error: TaskError)
        ensures
            error@ == missing_file(filename@),
    {
        let message = String::from_str("File \"").concat(filename).concat("\" doesn't exist");
        TaskError { kind: ErrorKind::NotFound, message }
    }

    /// See [`file_exists`].
    pub fn file_exists(filename: &str) -> (error: TaskError)
        ensures
            error@ == file_exists(filename@),
    {
        let message = String::from_str("File \"").concat(filename).concat("\" already exists");
        TaskError { kind: ErrorKind::AlreadyExists, message }
    }

    /// See [`file_unavailable`].
    pub fn file_unavailable(detail: &str) -> (error: TaskError)
        ensures
            error@ == file_unavailable(detail@),
    {
        let message = String::from_str("Error creating file: ").concat(detail);
        TaskError { kind: ErrorKind::Io, message }
    }

    /// See [`write_failed`].
    pub fn write_failed(detail: &str) -> (error: TaskError)
        ensures
            error@ == write_failed(detail@),
    {
        let message = String::from_str("Error saving data: ").concat(detail);
        TaskError { kind: ErrorKind::Io, message }
    }

    /// See [`read_failed`].
    pub fn read_failed(detail: &str) -> (error: TaskError)
        ensures
            error@ == read_failed(detail@),
    {
        let message = String::from_str("Error reading file: ").concat(detail);
        TaskError { kind: ErrorKind::Io, message }
    }

    /// See [`unwritable_data`].
    pub fn unwritable_data(detail: &str) -> (error: TaskError)
        ensures
            error@ == unwritable_data(detail@),
    {
        let message = String::from_str("Error saving data: ").concat(detail);
        TaskError { kind: ErrorKind::Serialize, message }
    }

    /// See [`unreadable_data`].
    pub fn unreadable_data(detail: &str) -> (error: TaskError)
        ensures
            error@ == unreadable_data(detail@),
    {
        let message = String::from_str("Error reading file: ").concat(detail);
        TaskError { kind: ErrorKind::Deserialize, message }
    }

    /// The message to show.
    pub fn to_string(&self) -> (text: String)
        ensures
            text@ == self@.message,
    {
        self.message.clone()
    }
}

} // verus!
