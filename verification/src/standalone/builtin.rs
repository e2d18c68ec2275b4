//! The in-shell `presence` builtin, with its `connect` and `disconnect`
//! subcommands.

use vstd::prelude::*;

verus! {

/// A subcommand of the builtin.
#[derive(Debug, Clone, Copy, PartialEq, Eq, Structural)]
pub enum PresenceCommand {
    Connect,
    Disconnect,
}

/// The line printed after `connect`.
pub open spec fn connected_line() -> Seq<char> {
    "Connected"@
}

/// The line printed after `disconnect`.
pub open spec fn disconnected_line() -> Seq<char> {
    "Disconnected"@
}

/// The in-shell `presence` builtin.
pub struct PresenceBuiltin {}

impl PresenceBuiltin {
    /// The line the builtin prints for the parsed subcommand, if any; the
    /// builtin always ends in success.
    pub fn run(&self, command: Option<PresenceCommand>) -> (r: Option<String>)
        ensures
            command is None <==> r is None,
            command == Some(PresenceCommand::Connect) ==> (r matches Some(line) && line@ == connected_line()),
            command == Some(PresenceCommand::Disconnect) ==> (r matches Some(line) && line@ == disconnected_line()),
    {
        match command {
            Some(PresenceCommand::Connect) => Some(String::from_str("Connected")),
            Some(PresenceCommand::Disconnect) => Some(String::from_str("Disconnected")),
            None => None,
        }
    }
}

} // verus!
