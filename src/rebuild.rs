//! The rebuild commands of the management CLI.

use vstd::prelude::*;
use crate::text::{join3, str_eq};

verus! {

/// A rebuild command, each naming a nexus and a child.
#[derive(Clone, Copy, Debug, PartialEq, Eq, Structural)]
pub enum RebuildCommand {
    Start,
    Stop,
    Pause,
    Resume,
    State,
    Progress,
}

/// The command that a subcommand name stands for.
pub open spec fn command_of(name: Seq<char>) -> Option<RebuildCommand> {
    if name == "start"@ {
        Some(RebuildCommand::Start)
    } else if name == "stop"@ {
        Some(RebuildCommand::Stop)
    } else if name == "pause"@ {
        Some(RebuildCommand::Pause)
    } else if name == "resume"@ {
        Some(RebuildCommand::Resume)
    } else if name == "state"@ {
        Some(RebuildCommand::State)
    } else if name == "progress"@ {
        Some(RebuildCommand::Progress)
    } else {
        None
    }
}

/// The command for a subcommand name, or the message that it does not
/// exist.
pub fn handler(name: &str) -> (r: Result<RebuildCommand, String>)
    ensures
        match command_of(name@) {
            Some(c) => r == Ok::<RebuildCommand, String>(c),
            None => r is Err,
        },
{
    if str_eq(name, "start") {
        Ok(RebuildCommand::Start)
    } else if str_eq(name, "stop") {
        Ok(RebuildCommand::Stop)
    } else if str_eq(name, "pause") {
        Ok(RebuildCommand::Pause)
    } else if str_eq(name, "resume") {
        Ok(RebuildCommand::Resume)
    } else if str_eq(name, "state") {
        Ok(RebuildCommand::State)
    } else if str_eq(name, "progress") {
        Ok(RebuildCommand::Progress)
    } else {
        Err(join3("command ", name, " does not exist"))
    }
}

} // verus!
