//! The presence server: it keeps the sessions of the shells that use the
//! plugin, counts their commands, and shows a summary on Discord.

pub mod routes;
pub mod state;
