//! The plugin's `presence` builtin: it asks the presence server for its
//! state and prints the answer.

use vstd::prelude::*;
use crate::plugin::{info_route, PresenceState};

verus! {

/// What became of the request for the server's state.
#[derive(Debug)]
pub enum InfoOutcome {
    /// The server could not be reached.
    Unreachable,
    /// The server answered with this body.
    Body(String),
    /// The server answered, but its body could not be read as text.
    UnreadableBody,
}

/// Why the builtin failed.
#[derive(Debug, Clone, Copy, PartialEq, Eq, Structural)]
pub enum BuiltinError {
    /// The arguments were not understood.
    Usage,
    /// The server's answer could not be read.
    UnreadableBody,
}

/// The line printed when no server answers.
pub open spec fn no_server_line() -> Seq<char> {
    "No server running"@
}

/// The `presence` builtin.
pub struct PresenceBuiltin {}

impl PresenceBuiltin {
    /// Decides what the builtin does once its arguments were parsed
    /// (`args_ok` tells whether they were understood): with the plugin's
    /// state it asks for the url to fetch the server's state from; without
    /// it there is nothing to do.
    pub fn run(&self, args_ok: bool, state: Option<&PresenceState>) -> (r: Result<Option<String>, BuiltinError>)
        ensures
            !args_ok ==> r == Err::<Option<String>, BuiltinError>(BuiltinError::Usage),
            args_ok && state is None ==> r == Ok::<Option<String>, BuiltinError>(None),
            args_ok ==> (state matches Some(s) ==> {
                &&& r matches Ok(Some(url))
                &&& url@ == s.url_view() + info_route()
            }),
    {
        if !args_ok {
            return Err(BuiltinError::Usage);
        }
        match state {
            Some(s) => Ok(Some(s.info_url())),
            None => Ok(None),
        }
    }

    /// The line the builtin prints for what the request for the server's
    /// state gave.
    pub fn report(&self, outcome: InfoOutcome) -> (r: Result<String, BuiltinError>)
        ensures
            outcome is Unreachable ==> (r matches Ok(line) && line@ == no_server_line()),
            outcome matches InfoOutcome::Body(b) ==> (r matches Ok(line) && line@ == b@),
            outcome is UnreadableBody ==> r == Err::<String, BuiltinError>(BuiltinError::UnreadableBody),
    {
        match outcome {
            InfoOutcome::Unreachable => Ok(String::from_str("No server running")),
            InfoOutcome::Body(b) => Ok(b),
            InfoOutcome::UnreadableBody => Err(BuiltinError::UnreadableBody),
        }
    }
}

} // verus!
