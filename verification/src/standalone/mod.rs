//! Discord presence driven from inside the shell itself: a state that shows
//! the working directory as the activity, and a `presence` builtin with
//! `connect` and `disconnect` subcommands.

pub mod builtin;
pub mod state;
