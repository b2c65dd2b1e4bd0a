use task_manager::{ErrorKind, TaskError};

#[test]
fn every_failure_has_its_kind_and_message() {
    let cases = [
        (TaskError::missing_task("a"), ErrorKind::NotFound, "Task with name \"a\" doesn't exist"),
        (TaskError::missing_file("f"), ErrorKind::NotFound, "File \"f\" doesn't exist"),
        (TaskError::file_exists("f"), ErrorKind::AlreadyExists, "File \"f\" already exists"),
        (TaskError::file_unavailable("why"), ErrorKind::Io, "Error creating file: why"),
        (TaskError::write_failed("why"), ErrorKind::Io, "Error saving data: why"),
        (TaskError::read_failed("why"), ErrorKind::Io, "Error reading file: why"),
        (TaskError::unwritable_data("why"), ErrorKind::Serialize, "Error saving data: why"),
        (TaskError::unreadable_data("why"), ErrorKind::Deserialize, "Error reading file: why"),
    ];
    for (error, kind, message) in cases {
        assert_eq!(error.kind, kind);
        assert_eq!(error.message, message);
        assert_eq!(error.to_string(), message);
    }
}
