use vstd::prelude::*;

use crate::validate::same_text;

verus! {

/// An operator command of the console.
#[derive(Debug, Clone, Copy, PartialEq, Eq, Structural)]
pub enum Command {
    /// `h`: show the help.
    Help,
    /// `a`: add or overwrite an app URL.
    Add,
    /// `r`: reload the backing file.
    Reload,
    /// `q`: quit.
    Quit,
    /// Anything else.
    Unknown,
}

/// The command that a trimmed console line names.
pub open spec fn command_of(line: Seq<char>) -> Command {
    if line == "h"@ {
        Command::Help
    } else if line == "a"@ {
        Command::Add
    } else if line == "r"@ {
        Command::Reload
    } else if line == "q"@ {
        Command::Quit
    } else {
        Command::Unknown
    }
}

/// Reads a trimmed console line as a command.
pub fn parse_command(line: &str) -> (r: Command)
    ensures
        r == command_of(line@),
{
    if same_text(line, "h") {
        Command::Help
    } else if same_text(line, "a") {
        Command::Add
    } else if same_text(line, "r") {
        Command::Reload
    } else if same_text(line, "q") {
        Command::Quit
    } else {
        Command::Unknown
    }
}

} // verus!
