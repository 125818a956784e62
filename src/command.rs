use vstd::prelude::*;
use vstd::string::*;

use crate::config_value::str_equal;

verus! {

/// The command kinds that a task can name.
#[derive(PartialEq, Eq, Structural, Clone, Copy, Debug)]
pub enum CommandKind {
    Copy,
    Symlink,
    Clone,
    Run,
    MachineSetup,
}

/// The kind registered under `name`, if any.
pub open spec fn command_of_name(name: Seq<char>) -> Option<CommandKind> {
    if name == "copy"@ {
        Some(CommandKind::Copy)
    } else if name == "symlink"@ {
        Some(CommandKind::Symlink)
    } else if name == "clone"@ {
        Some(CommandKind::Clone)
    } else if name == "run"@ {
        Some(CommandKind::Run)
    } else if name == "machine_setup"@ {
        Some(CommandKind::MachineSetup)
    } else {
        None
    }
}

/// The error for a name that no kind is registered under.
pub open spec fn unknown_command_message(name: Seq<char>) -> Seq<char> {
    "Unknown command: "@ + name
}

/// Looks a command kind up by name; an unknown name is an error.
pub fn get_command(name: &str) -> (r: Result<CommandKind, String>)
    ensures
        match command_of_name(name@) {
            Some(kind) => r == Ok::<CommandKind, String>(kind),
            None => r is Err && r->Err_0@ == unknown_command_message(name@),
        },
{
    if str_equal(name, "copy") {
        Ok(CommandKind::Copy)
    } else if str_equal(name, "symlink") {
        Ok(CommandKind::Symlink)
    } else if str_equal(name, "clone") {
        Ok(CommandKind::Clone)
    } else if str_equal(name, "run") {
        Ok(CommandKind::Run)
    } else if str_equal(name, "machine_setup") {
        Ok(CommandKind::MachineSetup)
    } else {
        let mut message = String::from_str("Unknown command: ");
        message.append(name);
        Err(message)
    }
}

} // verus!
