//! What the plugin and the server agree on: where the server listens, its
//! routes, and how often each side beats.

use vstd::prelude::*;

verus! {

/// The address the server listens on.
pub const SERVER_ADDRESS: &'static str = "127.0.0.1:3000";

/// The url under which the plugin reaches the server.
pub const SERVER_URL: &'static str = "http://127.0.0.1:3000";

/// The route that registers (or keeps alive) a session.
pub const CONNECT_ROUTE: &'static str = "/connect";

/// The route that disconnects the server from Discord.
pub const DISCONNECT_ROUTE: &'static str = "/disconnect";

/// The route that counts a command.
pub const COMMAND_ROUTE: &'static str = "/command/add";

/// The route that reports the server's state.
pub const INFO_ROUTE: &'static str = "/info";

/// How often, in seconds, a shell announces its session again.
pub const PLUGIN_HEARTBEAT_SECS: u64 = 20;

/// How often, in seconds, the server forgets dead sessions.
pub const SERVER_HEARTBEAT_SECS: u64 = 30;

} // verus!
