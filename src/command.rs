//! The subcommands of the program.

use vstd::prelude::*;

use crate::text::same_text;

verus! {

/// What the program is asked to do.
#[derive(Debug, Clone, Copy, PartialEq, Eq, Structural)]
pub enum Command {
    /// Print the statistics gathered so far.
    Query,
    /// Follow the player and store each listen.
    Listener,
    /// Explain how to call the program.
    Usage,
}

pub open spec fn command_of(name: Option<Seq<char>>) -> Command {
    match name {
        Some(n) => if n == "query"@ {
            Command::Query
        } else if n == "listener"@ {
            Command::Listener
        } else {
            Command::Usage
        },
        None => Command::Usage,
    }
}

impl Command {
    /// The command that the first command-line argument names.
    pub fn from_subcommand(name: Option<&str>) -> (r: Command)
        ensures
            r == command_of(
                match name {
                    Some(n) => Some(n@),
                    None => None,
                },
            ),
    {
        match name {
            Some(n) => if same_text(n, "query") {
                Command::Query
            } else if same_text(n, "listener") {
                Command::Listener
            } else {
                Command::Usage
            },
            None => Command::Usage,
        }
    }
}

} // verus!
