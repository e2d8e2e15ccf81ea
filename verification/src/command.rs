//! The command line: from the arguments to one command, and from a command
//! and the collection to the changed collection and what is reported.

use crate::store::{
    add_task, delete_task, holds_id, mark_task, next_id, update_task, with_added,
    with_description, with_status, without, TaskList,
};
use crate::task::{Status, Task, TaskView};
use crate::text::{decimal_string, decimal_text, join_words, joined, parse_id, parsed_id, texts};
use crate::time::{system_time, Timestamp};
use vstd::prelude::*;

verus! {

/// The commands that take arguments.
#[derive(Clone, Copy, Debug, PartialEq, Eq, Structural)]
pub enum Verb {
    Add,
    Update,
    Delete,
    MarkInProgress,
    MarkDone,
}

/// One operation on the collection, with its arguments read.
#[derive(Clone, Debug, PartialEq, Eq)]
pub enum Command {
    Add { description: String },
    Update { id: u32, description: String },
    Delete { id: u32 },
    MarkInProgress { id: u32 },
    MarkDone { id: u32 },
    List,
}

/// A command as contracts speak of it.
pub enum CommandView {
    Add { description: Seq<char> },
    Update { id: u32, description: Seq<char> },
    Delete { id: u32 },
    MarkInProgress { id: u32 },
    MarkDone { id: u32 },
    List,
}

impl View for Command {
    type V = CommandView;

    open spec fn view(&self) -> CommandView {
        match *self {
            Command::Add { description } => CommandView::Add { description: description@ },
            Command::Update { id, description } => CommandView::Update {
                id,
                description: description@,
            },
            Command::Delete { id } => CommandView::Delete { id },
            Command::MarkInProgress { id } => CommandView::MarkInProgress { id },
            Command::MarkDone { id } => CommandView::MarkDone { id },
            Command::List => CommandView::List,
        }
    }
}

/// Why the arguments give no command.
#[derive(Clone, Debug, PartialEq, Eq)]
pub enum CommandError {
    /// There is no argument at all.
    NoCommand,
    /// The command is known, but has too few arguments.
    MissingArguments(Verb),
    /// The id argument is no number that an id can be.
    InvalidId,
    /// The first argument names no command.
    UnknownCommand(String),
}

/// A command error as contracts speak of it.
pub enum CommandErrorView {
    NoCommand,
    MissingArguments(Verb),
    InvalidId,
    UnknownCommand(Seq<char>),
}

impl View for CommandError {
    type V = CommandErrorView;

    open spec fn view(&self) -> CommandErrorView {
        match *self {
            CommandError::NoCommand => CommandErrorView::NoCommand,
            CommandError::MissingArguments(verb) => CommandErrorView::MissingArguments(verb),
            CommandError::InvalidId => CommandErrorView::InvalidId,
            CommandError::UnknownCommand(word) => CommandErrorView::UnknownCommand(word@),
        }
    }
}

/// The view of what `parse_command` returns.
pub open spec fn parse_view(result: Result<Command, CommandError>) -> Result<
    CommandView,
    CommandErrorView,
> {
    match result {
        Ok(command) => Ok(command@),
        Err(error) => Err(error@),
    }
}

/// The command that names a task by the id written in `word`.
pub open spec fn with_id(
    word: Seq<char>,
    then: spec_fn(u32) -> CommandView,
) -> Result<CommandView, CommandErrorView> {
    match parsed_id(word) {
        Some(id) => Ok(then(id)),
        None => Err(CommandErrorView::InvalidId),
    }
}

/// The command that the arguments give. The first argument names the
/// command. `add` takes one or more words of description; `update` an id and
/// one or more words of description; `delete`, `mark-in-progress` and
/// `mark-done` an id; `list` nothing. Words of description are joined with
/// single spaces. Arguments beyond those that a command takes are ignored.
/// Too few arguments are refused before the id is looked at.
pub open spec fn parsed(args: Seq<Seq<char>>) -> Result<CommandView, CommandErrorView> {
    if args.len() == 0 {
        Err(CommandErrorView::NoCommand)
    } else if args[0] == "add"@ {
        if args.len() < 2 {
            Err(CommandErrorView::MissingArguments(Verb::Add))
        } else {
            Ok(CommandView::Add { description: joined(args.skip(1)) })
        }
    } else if args[0] == "update"@ {
        if args.len() < 3 {
            Err(CommandErrorView::MissingArguments(Verb::Update))
        } else {
            with_id(
                args[1],
                |id: u32| CommandView::Update { id, description: joined(args.skip(2)) },
            )
        }
    } else if args[0] == "delete"@ {
        if args.len() < 2 {
            Err(CommandErrorView::MissingArguments(Verb::Delete))
        } else {
            with_id(args[1], |id: u32| CommandView::Delete { id })
        }
    } else if args[0] == "mark-in-progress"@ {
        if args.len() < 2 {
            Err(CommandErrorView::MissingArguments(Verb::MarkInProgress))
        } else {
            with_id(args[1], |id: u32| CommandView::MarkInProgress { id })
        }
    } else if args[0] == "mark-done"@ {
        if args.len() < 2 {
            Err(CommandErrorView::MissingArguments(Verb::MarkDone))
        } else {
            with_id(args[1], |id: u32| CommandView::MarkDone { id })
        }
    } else if args[0] == "list"@ {
        Ok(CommandView::List)
    } else {
        Err(CommandErrorView::UnknownCommand(args[0]))
    }
}

/// Reads the command from the arguments that follow the program's name.
pub fn parse_command(args: &Vec<String>) -> (result: Result<Command, CommandError>)
    ensures
        parse_view(result) == parsed(texts(args@)),
{
    if args.len() == 0 {
        return Err(CommandError::NoCommand);
    }
    if args[0] == String::from_str("add") {
        if args.len() < 2 {
            Err(CommandError::MissingArguments(Verb::Add))
        } else {
            Ok(Command::Add { description: join_words(args, 1) })
        }
    } else if args[0] == String::from_str("update") {
        if args.len() < 3 {
            Err(CommandError::MissingArguments(Verb::Update))
        } else {
            match parse_id(args[1].as_str()) {
                Some(id) => Ok(Command::Update { id, description: join_words(args, 2) }),
                None => Err(CommandError::InvalidId),
            }
        }
    } else if args[0] == String::from_str("delete") {
        if args.len() < 2 {
            Err(CommandError::MissingArguments(Verb::Delete))
        } else {
            match parse_id(args[1].as_str()) {
                Some(id) => Ok(Command::Delete { id }),
                None => Err(CommandError::InvalidId),
            }
        }
    } else if args[0] == String::from_str("mark-in-progress") {
        if args.len() < 2 {
            Err(CommandError::MissingArguments(Verb::MarkInProgress))
        } else {
            match parse_id(args[1].as_str()) {
                Some(id) => Ok(Command::MarkInProgress { id }),
                None => Err(CommandError::InvalidId),
            }
        }
    } else if args[0] == String::from_str("mark-done") {
        if args.len() < 2 {
            Err(CommandError::MissingArguments(Verb::MarkDone))
        } else {
            match parse_id(args[1].as_str()) {
                Some(id) => Ok(Command::MarkDone { id }),
                None => Err(CommandError::InvalidId),
            }
        }
    } else if args[0] == String::from_str("list") {
        Ok(Command::List)
    } else {
        Err(CommandError::UnknownCommand(args[0].clone()))
    }
}

/// What a command error says.
pub open spec fn error_text(error: CommandErrorView) -> Seq<char> {
    match error {
        CommandErrorView::NoCommand => "Usage: task-cli <command> [arguments...]"@,
        CommandErrorView::MissingArguments(Verb::Add) => "Usage: task-cli add <description>"@,
        CommandErrorView::MissingArguments(Verb::Update) =>
            "Usage: task-cli update <id> <description>"@,
        CommandErrorView::MissingArguments(Verb::Delete) => "Usage: task-cli delete <id>"@,
        CommandErrorView::MissingArguments(Verb::MarkInProgress) =>
            "Usage: task-cli mark-in-progress <id>"@,
        CommandErrorView::MissingArguments(Verb::MarkDone) => "Usage: task-cli mark-done <id>"@,
        CommandErrorView::InvalidId => "Invalid ID."@,
        CommandErrorView::UnknownCommand(word) => "Unknown command: "@ + word,
    }
}

impl CommandError {
    /// What the error says. It belongs on standard error.
    pub fn message(&self) -> (text: String)
        ensures
            text@ == error_text(self@),
    {
        match self {
            CommandError::NoCommand => String::from_str("Usage: task-cli <command> [arguments...]"),
            CommandError::MissingArguments(Verb::Add) => String::from_str(
                "Usage: task-cli add <description>",
            ),
            CommandError::MissingArguments(Verb::Update) => String::from_str(
                "Usage: task-cli update <id> <description>",
            ),
            CommandError::MissingArguments(Verb::Delete) => String::from_str(
                "Usage: task-cli delete <id>",
            ),
            CommandError::MissingArguments(Verb::MarkInProgress) => String::from_str(
                "Usage: task-cli mark-in-progress <id>",
            ),
            CommandError::MissingArguments(Verb::MarkDone) => String::from_str(
                "Usage: task-cli mark-done <id>",
            ),
            CommandError::InvalidId => String::from_str("Invalid ID."),
            CommandError::UnknownCommand(word) => String::from_str("Unknown command: ").concat(
                word.as_str(),
            ),
        }
    }
}

/// What a command reports, and whether the collection has to be stored
/// again.
#[derive(Clone, Debug, PartialEq, Eq)]
pub struct Report {
    /// The lines to print, in order.
    pub lines: Vec<String>,
    /// Whether the lines belong on standard error rather than standard
    /// output.
    pub failed: bool,
    /// Whether the command changed the collection.
    pub changed: bool,
}

/// A report as contracts speak of it.
pub struct ReportView {
    pub lines: Seq<Seq<char>>,
    pub failed: bool,
    pub changed: bool,
}

impl View for Report {
    type V = ReportView;

    open spec fn view(&self) -> ReportView {
        ReportView { lines: texts(self.lines@), failed: self.failed, changed: self.changed }
    }
}

/// The confirmation of `add`.
pub open spec fn added_text(id: u32) -> Seq<char> {
    "Task added successfully (ID: "@ + decimal_text(id as nat) + ")"@
}

/// The confirmation of `update`.
pub open spec fn updated_text() -> Seq<char> {
    "Task updated successfully."@
}

/// The confirmation of `delete`.
pub open spec fn deleted_text(id: u32) -> Seq<char> {
    "Deleting task: "@ + decimal_text(id as nat)
}

/// The confirmation of `mark-in-progress`.
pub open spec fn in_progress_text(id: u32) -> Seq<char> {
    "Marking task in progress: "@ + decimal_text(id as nat)
}

/// The confirmation of `mark-done`.
pub open spec fn done_text(id: u32) -> Seq<char> {
    "Marking task done: "@ + decimal_text(id as nat)
}

/// What is said where no task has the id.
pub open spec fn not_found_text(id: u32) -> Seq<char> {
    "Task with ID "@ + decimal_text(id as nat) + " not found."@
}

/// What is said where no id is left for a new task.
pub open spec fn exhausted_text() -> Seq<char> {
    "No ID is left for a new task."@
}

/// The line that lists a task, given the texts of its two times.
pub open spec fn line_text(task: TaskView, created: Seq<char>, updated: Seq<char>) -> Seq<char> {
    decimal_text(task.id as nat) + ". ["@ + task.status.label_text() + "] "@ + task.description
        + " (created "@ + created + ", updated "@ + updated + ")"@
}

/// The line that lists a task.
pub open spec fn listed(task: TaskView) -> Seq<char> {
    line_text(task, task.created_at.text(), task.updated_at.text())
}

/// The report of one line on standard output.
pub open spec fn said(line: Seq<char>, changed: bool) -> ReportView {
    ReportView { lines: seq![line], failed: false, changed }
}

/// What a command does to the collection `tasks` at the time `now`, and
/// what it reports.
///
/// A command that names a task by an id that no task has, and `add` where
/// no id is left, change nothing and say so. `list` changes nothing and
/// reports one line for each task, in the order of the collection.
pub open spec fn outcome(command: CommandView, tasks: Seq<TaskView>, now: Timestamp) -> (
    Seq<TaskView>,
    ReportView,
) {
    match command {
        CommandView::Add { description } => if next_id(tasks) <= u32::MAX {
            (with_added(tasks, description, now), said(added_text(next_id(tasks) as u32), true))
        } else {
            (tasks, ReportView { lines: seq![exhausted_text()], failed: true, changed: false })
        },
        CommandView::Update { id, description } => if holds_id(tasks, id) {
            (with_description(tasks, id, description, now), said(updated_text(), true))
        } else {
            (tasks, said(not_found_text(id), false))
        },
        CommandView::Delete { id } => if holds_id(tasks, id) {
            (without(tasks, id), said(deleted_text(id), true))
        } else {
            (tasks, said(not_found_text(id), false))
        },
        CommandView::MarkInProgress { id } => if holds_id(tasks, id) {
            (
                with_status(tasks, id, Status::InProgress, now),
                said(in_progress_text(id), true),
            )
        } else {
            (tasks, said(not_found_text(id), false))
        },
        CommandView::MarkDone { id } => if holds_id(tasks, id) {
            (with_status(tasks, id, Status::Done, now), said(done_text(id), true))
        } else {
            (tasks, said(not_found_text(id), false))
        },
        CommandView::List => (
            tasks,
            ReportView {
                lines: tasks.map_values(|task: TaskView| listed(task)),
                failed: false,
                changed: false,
            },
        ),
    }
}

/// The report of one line on standard output.
fn say(line: String, changed: bool) -> (report: Report)
    ensures
        report@ == said(line@, changed),
{
    let mut lines: Vec<String> = Vec::new();
    lines.push(line);
    assert(texts(lines@) == seq![line@]);
    Report { lines, failed: false, changed }
}

/// The report that no task has the id `id`.
fn say_not_found(id: u32) -> (report: Report)
    ensures
        report@ == said(not_found_text(id), false),
{
    say(
        String::from_str("Task with ID ").concat(decimal_string(id).as_str()).concat(
            " not found.",
        ),
        false,
    )
}

/// The line that lists `task`, given the texts of its two times.
pub fn task_line(task: &Task, created: &str, updated: &str) -> (line: String)
    ensures
        line@ == line_text(task@, created@, updated@),
{
    let mut line = decimal_string(task.id);
    line.append(". [");
    line.append(task.status.label().as_str());
    line.append("] ");
    line.append(task.description.as_str());
    line.append(" (created ");
    line.append(created);
    line.append(", updated ");
    line.append(updated);
    line.append(")");
    line
}

/// One line for each task, in the order of the collection.
pub fn list_tasks(tasks: &TaskList) -> (lines: Vec<String>)
    ensures
        texts(lines@) == tasks@.map_values(|task: TaskView| listed(task)),
{
    let all = tasks.tasks();
    let mut lines: Vec<String> = Vec::new();
    let mut i: usize = 0;
    while i < all.len()
        invariant
            i <= all.len(),
            lines.len() == i,
            forall|k: int| 0 <= k < i ==> (#[trigger] lines@[k])@ == listed(all@[k]@),
        decreases all.len() - i,
    {
        let created = all[i].created_at.to_text();
        let updated = all[i].updated_at.to_text();
        lines.push(task_line(&all[i], created.as_str(), updated.as_str()));
        i = i + 1;
    }
    lines
}

/// Carries out `command` on `tasks` at the time `now`.
pub fn apply_command(command: Command, tasks: &mut TaskList, now: Timestamp) -> (report: Report)
    ensures
        (final(tasks)@, report@) == outcome(command@, old(tasks)@, now),
{
    match command {
        Command::Add { description } => match add_task(tasks, description, now) {
            Some(id) => say(
                String::from_str("Task added successfully (ID: ").concat(
                    decimal_string(id).as_str(),
                ).concat(")"),
                true,
            ),
            None => {
                let mut lines: Vec<String> = Vec::new();
                lines.push(String::from_str("No ID is left for a new task."));
                assert(texts(lines@) == seq![exhausted_text()]);
                Report { lines, failed: true, changed: false }
            },
        },
        Command::Update { id, description } => if update_task(tasks, id, description, now) {
            say(String::from_str("Task updated successfully."), true)
        } else {
            say_not_found(id)
        },
        Command::Delete { id } => if delete_task(tasks, id) {
            say(String::from_str("Deleting task: ").concat(decimal_string(id).as_str()), true)
        } else {
            say_not_found(id)
        },
        Command::MarkInProgress { id } => if mark_task(tasks, id, Status::InProgress, now) {
            say(
                String::from_str("Marking task in progress: ").concat(
                    decimal_string(id).as_str(),
                ),
                true,
            )
        } else {
            say_not_found(id)
        },
        Command::MarkDone { id } => if mark_task(tasks, id, Status::Done, now) {
            say(String::from_str("Marking task done: ").concat(decimal_string(id).as_str()), true)
        } else {
            say_not_found(id)
        },
        Command::List => Report { lines: list_tasks(tasks), failed: false, changed: false },
    }
}

/// Carries out `command` on `tasks` at the time that the system clock
/// shows.
pub fn run_command(command: Command, tasks: &mut TaskList) -> (report: Report)
    ensures
        exists|now: Timestamp|
            (final(tasks)@, report@) == #[trigger] outcome(command@, old(tasks)@, now),
{
    let now = system_time();
    apply_command(command, tasks, now)
}

} // verus!
