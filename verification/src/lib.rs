//! Verified core of the shrs Discord presence plugin and its companion server.
//!
//! The library holds the decisions of the plugin (which requests it sends,
//! the launch-agent file it writes, what its builtin prints) and of the
//! presence server (session bookkeeping, the activity it shows, the replies
//! of its routes). Sockets, HTTP, clocks and the shell itself are driven by
//! the thin program around it.

pub mod discord;
pub mod ids;
pub mod plugin;
pub mod protocol;
pub mod server;
pub mod standalone;
pub mod text;
