//! The commands of the text menu.

use crate::text::same_text;
use vstd::prelude::*;

verus! {

/// What a person can ask for at the menu.
#[derive(Clone, Copy, Debug, PartialEq, Eq, Structural)]
pub enum MenuCommand {
    AddTask,
    FindTask,
    EditTask,
    RemoveTask,
    PrintTasks,
    StoreTasks,
    ReadTasks,
}

impl MenuCommand {
    /// The text that selects the command: its number in the menu.
    pub open spec fn key(self) -> Seq<char> {
        match self {
            MenuCommand::AddTask => "1"@,
            MenuCommand::FindTask => "2"@,
            MenuCommand::EditTask => "3"@,
            MenuCommand::RemoveTask => "4"@,
            MenuCommand::PrintTasks => "5"@,
            MenuCommand::StoreTasks => "6"@,
            MenuCommand::ReadTasks => "7"@,
        }
    }

    /// What the menu calls the command.
    pub open spec fn title(self) -> Seq<char> {
        match self {
            MenuCommand::AddTask => "Add task"@,
            MenuCommand::FindTask => "Find task"@,
            MenuCommand::EditTask => "Edit task"@,
            MenuCommand::RemoveTask => "Remove task"@,
            MenuCommand::PrintTasks => "Print tasks"@,
            MenuCommand::StoreTasks => "Store tasks to file"@,
            MenuCommand::ReadTasks => "Read tasks from file"@,
        }
    }

    /// The line of the menu that offers the command.
    pub open spec fn line(self) -> Seq<char> {
        self.key() + ". "@ + self.title()
    }

    /// The command that a text selects, if it selects one.
    pub open spec fn of_key(text: Seq<char>) -> Option<MenuCommand> {
        if text == "1"@ {
            Some(MenuCommand::AddTask)
        } else if text == "2"@ {
            Some(MenuCommand::FindTask)
        } else if text == "3"@ {
            Some(MenuCommand::EditTask)
        } else if text == "4"@ {
            Some(MenuCommand::RemoveTask)
        } else if text == "5"@ {
            Some(MenuCommand::PrintTasks)
        } else if text == "6"@ {
            Some(MenuCommand::StoreTasks)
        } else if text == "7"@ {
            Some(MenuCommand::ReadTasks)
        } else {
            None
        }
    }

    /// The commands in the order of the menu.
    pub open spec fn in_order() -> Seq<MenuCommand> {
        seq![
            MenuCommand::AddTask,
            MenuCommand::FindTask,
            MenuCommand::EditTask,
            MenuCommand::RemoveTask,
            MenuCommand::PrintTasks,
            MenuCommand::StoreTasks,
            MenuCommand::ReadTasks,
        ]
    }

    /// The commands in the order of the menu.
    pub fn all() -> (commands: Vec<MenuCommand>)
        ensures
            commands@ == MenuCommand::in_order(),
    {
        let mut commands: Vec<MenuCommand> = Vec::new();
        commands.push(MenuCommand::AddTask);
        commands.push(MenuCommand::FindTask);
        commands.push(MenuCommand::EditTask);
        commands.push(MenuCommand::RemoveTask);
        commands.push(MenuCommand::PrintTasks);
        commands.push(MenuCommand::StoreTasks);
        commands.push(MenuCommand::ReadTasks);
        assert(commands@ =~= MenuCommand::in_order());
        commands
    }

    /// The line of the menu that offers the command, such as `1. Add task`.
    pub fn menu_line(&self) -> (text: String)
        ensures
            text@ == self.line(),
    {
        let (key, title) = match self {
            MenuCommand::AddTask => ("1", "Add task"),
            MenuCommand::FindTask => ("2", "Find task"),
            MenuCommand::EditTask => ("3", "Edit task"),
            MenuCommand::RemoveTask => ("4", "Remove task"),
            MenuCommand::PrintTasks => ("5", "Print tasks"),
            MenuCommand::StoreTasks => ("6", "Store tasks to file"),
            MenuCommand::ReadTasks => ("7", "Read tasks from file"),
        };
        String::from_str(key).concat(". ").concat(title)
    }

    /// The command that a typed text selects. The text is taken as it is:
    /// only the seven numbers select a command.
    pub fn parse(command: &str) -> (selected: Option<MenuCommand>)
        ensures
            selected == MenuCommand::of_key(command@),
    {
        if same_text(command, "1") {
            Some(MenuCommand::AddTask)
        } else if same_text(command, "2") {
            Some(MenuCommand::FindTask)
        } else if same_text(command, "3") {
            Some(MenuCommand::EditTask)
        } else if same_text(command, "4") {
            Some(MenuCommand::RemoveTask)
        } else if same_text(command, "5") {
            Some(MenuCommand::PrintTasks)
        } else if same_text(command, "6") {
            Some(MenuCommand::StoreTasks)
        } else if same_text(command, "7") {
            Some(MenuCommand::ReadTasks)
        } else {
            None
        }
    }
}

/// The lines of the menu, in order.
pub fn menu_lines() -> (lines: Vec<String>)
    ensures
        lines@.len() == MenuCommand::in_order().len(),
        forall|at: int|
            0 <= at < lines@.len() ==> lines@[at]@ == (#[trigger] MenuCommand::in_order()[at]).line(),
{
    let commands = MenuCommand::all();
    let mut lines: Vec<String> = Vec::new();
    let mut at: usize = 0;
    while at < commands.len()
        invariant
            commands@ == MenuCommand::in_order(),
            at <= commands@.len(),
            lines@.len() == at,
            forall|done: int|
                0 <= done < at ==> lines@[done]@ == (#[trigger] MenuCommand::in_order()[done]).line(),
        decreases commands@.len() - at,
    {
        lines.push(commands[at].menu_line());
        at += 1;
    }
    lines
}

/// Each command is selected by its own number and by no other.
pub proof fn lemma_key_selects(command: MenuCommand)
    ensures
        MenuCommand::of_key(command.key()) == Some(command),
{
    reveal_strlit("1");
    reveal_strlit("2");
    reveal_strlit("3");
    reveal_strlit("4");
    reveal_strlit("5");
    reveal_strlit("6");
    reveal_strlit("7");
    assert("1"@[0] == '1');
    assert("2"@[0] == '2');
    assert("3"@[0] == '3');
    assert("4"@[0] == '4');
    assert("5"@[0] == '5');
    assert("6"@[0] == '6');
    assert("7"@[0] == '7');
}

} // verus!
