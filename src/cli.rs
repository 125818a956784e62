use vstd::prelude::*;
use vstd::string::*;

use crate::config_value::str_equal;
use crate::task_runner::TaskRunnerMode;

verus! {

/// What the command line asks for.
#[derive(PartialEq, Eq, Structural, Clone, Copy, Debug)]
pub enum SubCommand {
    Install,
    Update,
    Uninstall,
    List,
}

/// How much the program logs.
#[derive(PartialEq, Eq, Structural, Clone, Copy, Debug)]
pub enum LogLevel {
    Trace,
    Debug,
    Info,
    Warn,
    Error,
}

/// The parsed command line.
pub struct Args {
    pub command: SubCommand,
    pub config: String,
    pub task: Option<String>,
    pub select: bool,
    pub level: LogLevel,
    pub debug: bool,
}

/// The sub-command named `s`, if any.
pub open spec fn subcommand_of_name(s: Seq<char>) -> Option<SubCommand> {
    if s == "install"@ {
        Some(SubCommand::Install)
    } else if s == "update"@ {
        Some(SubCommand::Update)
    } else if s == "uninstall"@ {
        Some(SubCommand::Uninstall)
    } else if s == "list"@ {
        Some(SubCommand::List)
    } else {
        None
    }
}

impl SubCommand {
    /// Parses a sub-command; an unknown one gives `"Invalid mode: <name>"`.
    pub fn from_str(s: &str) -> (r: Result<SubCommand, String>)
        ensures
            match subcommand_of_name(s@) {
                Some(c) => r == Ok::<SubCommand, String>(c),
                None => r is Err && r->Err_0@ == "Invalid mode: "@ + s@,
            },
    {
        if str_equal(s, "install") {
            Ok(SubCommand::Install)
        } else if str_equal(s, "update") {
            Ok(SubCommand::Update)
        } else if str_equal(s, "uninstall") {
            Ok(SubCommand::Uninstall)
        } else if str_equal(s, "list") {
            Ok(SubCommand::List)
        } else {
            let mut message = String::from_str("Invalid mode: ");
            message.append(s);
            Err(message)
        }
    }
}

/// The mode that a sub-command other than `List` runs tasks in.
pub fn get_task_runner_mode(subcommand: SubCommand) -> (r: TaskRunnerMode)
    requires
        subcommand != SubCommand::List,
    ensures
        subcommand == SubCommand::Install ==> r == TaskRunnerMode::Install,
        subcommand == SubCommand::Update ==> r == TaskRunnerMode::Update,
        subcommand == SubCommand::Uninstall ==> r == TaskRunnerMode::Uninstall,
{
    match subcommand {
        SubCommand::Install => TaskRunnerMode::Install,
        SubCommand::Update => TaskRunnerMode::Update,
        _ => TaskRunnerMode::Uninstall,
    }
}

/// Whether the user is to be asked which task to run: a selection was asked
/// for and no task was named.
pub fn needs_selection(args: &Args) -> (r: bool)
    ensures
        r == (args.task is None && args.select),
{
    args.task.is_none() && args.select
}

/// The task a run is limited to: the one named on the command line; else,
/// where a selection was asked for, the one selected (`selected`), and an
/// error where none was; else none.
pub fn get_task_from_args(args: &Args, selected: Option<String>) -> (r: Result<Option<String>, String>)
    ensures
        match args.task {
            Some(name) => r is Ok && r->Ok_0 is Some && r->Ok_0->0@ == name@,
            None => if !args.select {
                r == Ok::<Option<String>, String>(None)
            } else {
                match selected {
                    Some(name) => r is Ok && r->Ok_0 is Some && r->Ok_0->0@ == name@,
                    None => r is Err && r->Err_0@ == "No task selected"@,
                }
            },
        },
{
    match &args.task {
        Some(name) => Ok(Some(name.clone())),
        None => {
            if !args.select {
                return Ok(None);
            }
            match selected {
                Some(name) => Ok(Some(name)),
                None => Err(String::from_str("No task selected")),
            }
        },
    }
}

} // verus!
