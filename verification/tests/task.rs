use task_manager::{ErrorKind, Priority, Task, TaskRecord, Timestamp};

fn stamp(seconds: i64, nanos: u32, offset: i32) -> Timestamp {
    Timestamp::new(seconds, nanos, offset).unwrap()
}

fn report() -> Task {
    Task::with_time(
        "Write report".to_string(),
        "Q3 summary".to_string(),
        Priority::Medium,
        stamp(1_700_000_000, 0, 3_600),
    )
}

fn record(name: &str, description: &str, priority: &str, add_time: &str) -> TaskRecord {
    TaskRecord {
        name: name.to_string(),
        description: description.to_string(),
        priority: priority.to_string(),
        add_time: add_time.to_string(),
    }
}

#[test]
fn a_task_keeps_what_it_was_made_of() {
    let task = report();
    assert_eq!(task.name(), "Write report");
    assert_eq!(task.description(), "Q3 summary");
    assert_eq!(task.priority(), Priority::Medium);
    assert_eq!(task.add_time(), stamp(1_700_000_000, 0, 3_600));
}

#[test]
fn a_new_task_is_stamped_with_the_present() {
    let before = Timestamp::now();
    let task = Task::new("Clean desk".to_string(), String::new(), Priority::Low);
    let after = Timestamp::now();
    assert_eq!(task.name(), "Clean desk");
    assert_eq!(task.description(), "");
    assert_eq!(task.priority(), Priority::Low);
    assert!(before.seconds() <= task.add_time().seconds());
    assert!(task.add_time().seconds() <= after.seconds());
}

#[test]
fn empty_texts_are_accepted() {
    let task = Task::with_time(String::new(), String::new(), Priority::High, stamp(0, 0, 0));
    assert_eq!(task.name(), "");
    assert_eq!(task.render(), " | High | 01-01-1970 00:00:00\n\"\"\n");
}

#[test]
fn render_shows_name_label_time_and_description() {
    assert_eq!(report().render(), "Write report | Medium | 14-11-2023 23:13:20\n\"Q3 summary\"\n");
    let low = Task::with_time("a".to_string(), "b \"c\"".to_string(), Priority::Low, stamp(0, 0, 0));
    assert_eq!(low.render(), "a | Low | 01-01-1970 00:00:00\n\"b \"c\"\"\n");
}

#[test]
fn revise_keeps_the_creation_time() {
    let mut task = report();
    let other = Task::with_time(
        "Send report".to_string(),
        "to the board".to_string(),
        Priority::High,
        stamp(5, 0, 0),
    );
    task.revise(other);
    assert_eq!(task.name(), "Send report");
    assert_eq!(task.description(), "to the board");
    assert_eq!(task.priority(), Priority::High);
    assert_eq!(task.add_time(), stamp(1_700_000_000, 0, 3_600));
}

#[test]
fn typed_input_makes_a_task() {
    let (task, recognised) =
        Task::from_input("Call Ana".to_string(), "about Friday".to_string(), "HIGH");
    assert!(recognised);
    assert_eq!(task.name(), "Call Ana");
    assert_eq!(task.description(), "about Friday");
    assert_eq!(task.priority(), Priority::High);
}

#[test]
fn typed_input_with_an_unknown_priority_makes_a_low_task() {
    let (task, recognised) = Task::from_input("Call Ana".to_string(), String::new(), "soon");
    assert!(!recognised);
    assert_eq!(task.priority(), Priority::Low);
    let (task, recognised) = Task::from_input("Call Ana".to_string(), String::new(), "Low");
    assert!(recognised);
    assert_eq!(task.priority(), Priority::Low);
}

#[test]
fn the_stored_form_holds_four_texts() {
    assert_eq!(
        report().to_record(),
        Some(record("Write report", "Q3 summary", "Medium", "2023-11-14T23:13:20+01:00"))
    );
}

#[test]
fn a_task_at_the_end_of_the_calendar_has_no_stored_form() {
    let last = stamp(task_manager::timestamp::MAX_SECONDS, 0, 60);
    let task = Task::with_time("Last".to_string(), String::new(), Priority::Low, last);
    assert_eq!(task.to_record(), None);
    assert_eq!(task.record_fault(), "the creation time of task \"Last\" cannot be written");
}

#[test]
fn a_record_is_read_back() {
    let read =
        Task::from_record(&record("Write report", "Q3 summary", "Medium", "2023-11-14T23:13:20+01:00"));
    assert_eq!(read, Ok(report()));
}

#[test]
fn a_task_survives_its_stored_form() {
    let tasks = [
        report(),
        Task::with_time(String::new(), String::new(), Priority::Low, stamp(0, 1, 0)),
        Task::with_time("ü".to_string(), "\n".to_string(), Priority::High, stamp(-5, 0, -3_600)),
    ];
    for task in tasks {
        let stored = task.to_record().unwrap();
        assert_eq!(Task::from_record(&stored), Ok(task));
    }
}

#[test]
fn a_record_with_an_unknown_priority_is_refused() {
    let error =
        Task::from_record(&record("a", "b", "low", "2023-11-14T23:13:20+01:00")).unwrap_err();
    assert_eq!(error.kind, ErrorKind::Deserialize);
    assert_eq!(error.message, "Error reading file: unknown priority \"low\"");
}

#[test]
fn a_record_with_an_unreadable_time_is_refused() {
    let error = Task::from_record(&record("a", "b", "Low", "last Tuesday")).unwrap_err();
    assert_eq!(error.kind, ErrorKind::Deserialize);
    assert_eq!(error.message, "Error reading file: invalid creation time \"last Tuesday\"");
}

#[test]
fn the_priority_of_a_record_is_judged_first() {
    let error = Task::from_record(&record("a", "b", "", "")).unwrap_err();
    assert_eq!(error.message, "Error reading file: unknown priority \"\"");
}

#[test]
fn render_with_puts_the_given_time_between_label_and_description() {
    assert_eq!(report().render_with("noon"), "Write report | Medium | noon\n\"Q3 summary\"\n");
    assert_eq!(report().render_with(""), "Write report | Medium | \n\"Q3 summary\"\n");
    assert_eq!(report().render_with("14-11-2023 23:13:20"), report().render());
}

#[test]
fn record_with_takes_the_given_time_as_it_is() {
    assert_eq!(
        report().record_with("then".to_string()),
        record("Write report", "Q3 summary", "Medium", "then")
    );
    assert_eq!(
        Some(report().record_with("2023-11-14T23:13:20+01:00".to_string())),
        report().to_record()
    );
}
