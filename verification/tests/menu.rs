use task_manager::menu::menu_lines;
use task_manager::MenuCommand;

#[test]
fn the_menu_has_seven_lines() {
    assert_eq!(
        menu_lines(),
        vec![
            "1. Add task",
            "2. Find task",
            "3. Edit task",
            "4. Remove task",
            "5. Print tasks",
            "6. Store tasks to file",
            "7. Read tasks from file",
        ]
    );
}

#[test]
fn commands_come_in_menu_order() {
    assert_eq!(
        MenuCommand::all(),
        vec![
            MenuCommand::AddTask,
            MenuCommand::FindTask,
            MenuCommand::EditTask,
            MenuCommand::RemoveTask,
            MenuCommand::PrintTasks,
            MenuCommand::StoreTasks,
            MenuCommand::ReadTasks,
        ]
    );
}

#[test]
fn a_number_selects_its_command() {
    assert_eq!(MenuCommand::parse("1"), Some(MenuCommand::AddTask));
    assert_eq!(MenuCommand::parse("2"), Some(MenuCommand::FindTask));
    assert_eq!(MenuCommand::parse("3"), Some(MenuCommand::EditTask));
    assert_eq!(MenuCommand::parse("4"), Some(MenuCommand::RemoveTask));
    assert_eq!(MenuCommand::parse("5"), Some(MenuCommand::PrintTasks));
    assert_eq!(MenuCommand::parse("6"), Some(MenuCommand::StoreTasks));
    assert_eq!(MenuCommand::parse("7"), Some(MenuCommand::ReadTasks));
}

#[test]
fn anything_else_selects_nothing() {
    assert_eq!(MenuCommand::parse(""), None);
    assert_eq!(MenuCommand::parse("0"), None);
    assert_eq!(MenuCommand::parse("8"), None);
    assert_eq!(MenuCommand::parse("01"), None);
    assert_eq!(MenuCommand::parse(" 1"), None);
    assert_eq!(MenuCommand::parse("add"), None);
}

#[test]
fn each_line_starts_with_the_number_that_selects_it() {
    for command in MenuCommand::all() {
        let line = command.menu_line();
        let (key, _) = line.split_once(". ").unwrap();
        assert_eq!(MenuCommand::parse(key), Some(command));
    }
}
