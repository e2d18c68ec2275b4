//! The Discord IPC client, as the library uses it.
//!
//! The client itself is `discord_rich_presence::DiscordIpcClient`, carried
//! through opaquely. What the library shows on Discord is described by an
//! [`ActivityPayload`] of plain values, computed by verified code and handed
//! to the client as it is.

use vstd::prelude::*;
use discord_rich_presence::DiscordIpc;
use discord_rich_presence::activity::{Activity, Assets, Button, Timestamps};

verus! {

/// Declares `discord_rich_presence::DiscordIpcClient`, which the library
/// carries without looking inside.
#[verifier::external_type_specification]
#[verifier::external_body]
pub struct ExDiscordIpcClient(discord_rich_presence::DiscordIpcClient);

/// Declares `discord_rich_presence::error::Error`, the client's error,
/// which the library maps to [`PresenceError`].
#[verifier::external_type_specification]
#[verifier::external_body]
pub struct ExDiscordError(discord_rich_presence::error::Error);

/// The failure of a call into the Discord IPC client.
#[derive(Debug, Clone, Copy, PartialEq, Eq, Structural)]
pub enum PresenceError {
    /// The IPC socket could not be used (not found, not connected, or an
    /// I/O error on it).
    Ipc,
}

/// What an activity shows: its state line, its details line, the start of
/// its elapsed-time counter (milliseconds since the Unix epoch), its buttons
/// as (label, url) pairs, and the key of its large image.
pub struct ActivityPayload {
    pub state: String,
    pub details: String,
    pub start: i64,
    pub buttons: Vec<(String, String)>,
    pub large_image: String,
}

/// What an activity shows, as values: state line, details line, start,
/// (label, url) buttons and large image key.
pub ghost struct ActivityView {
    pub state: Seq<char>,
    pub details: Seq<char>,
    pub start: i64,
    pub buttons: Seq<(Seq<char>, Seq<char>)>,
    pub large_image: Seq<char>,
}

impl View for ActivityPayload {
    type V = ActivityView;

    open spec fn view(&self) -> ActivityView {
        ActivityView {
            state: self.state@,
            details: self.details@,
            start: self.start,
            buttons: self.buttons@.map_values(|b: (String, String)| (b.0@, b.1@)),
            large_image: self.large_image@,
        }
    }
}

/// One request made to the Discord client, with whether it succeeded.
pub ghost enum ClientCall {
    /// Connect to the IPC socket and hand-shake.
    Connect { ok: bool },
    /// Close the connection.
    Close { ok: bool },
    /// Show this activity.
    Show { activity: ActivityView, ok: bool },
    /// Clear the activity shown.
    Clear { ok: bool },
}

/// Whether a history of client requests leaves the client connected: the
/// latest connect or close in it is a connect that succeeded.
pub open spec fn history_connected(calls: Seq<ClientCall>) -> bool
    decreases calls.len(),
{
    if calls.len() == 0 {
        false
    } else {
        match calls.last() {
            ClientCall::Connect { ok } => ok,
            ClientCall::Close { ok: _ } => false,
            _ => history_connected(calls.drop_last()),
        }
    }
}

/// How each request moves [`history_connected`]: a connect sets it to its
/// outcome, a close clears it, and showing or clearing an activity leaves it
/// as it was.
pub proof fn lemma_history_step(calls: Seq<ClientCall>, call: ClientCall)
    ensures
        history_connected(calls.push(call)) == match call {
            ClientCall::Connect { ok } => ok,
            ClientCall::Close { ok: _ } => false,
            _ => history_connected(calls),
        },
{
    assert(calls.push(call).drop_last() =~= calls);
}

/// Creates a client for the given Discord application id.
///
/// Calls `DiscordIpcClient::new`, which only records the id; it does not
/// touch the socket.
#[verifier::external_body]
pub(crate) fn new_client(client_id: &str) -> discord_rich_presence::DiscordIpcClient {
    discord_rich_presence::DiscordIpcClient::new(client_id)
}

/// Connects the client to the local Discord IPC socket and sends the
/// handshake (`DiscordIpc::connect`). Whether it succeeds depends on the
/// machine; nothing is stated of the result.
#[verifier::external_body]
pub(crate) fn connect_client(
    client: &mut discord_rich_presence::DiscordIpcClient,
) -> Result<(), discord_rich_presence::error::Error> {
    client.connect()
}

/// Closes the client's connection (`DiscordIpc::close`). It fails where the
/// client holds no socket; that is not stated, since the library does not
/// model the socket.
#[verifier::external_body]
pub(crate) fn close_client(
    client: &mut discord_rich_presence::DiscordIpcClient,
) -> Result<(), discord_rich_presence::error::Error> {
    client.close()
}

/// Clears the activity shown (`DiscordIpc::clear_activity`). The outcome
/// depends on the socket; nothing is stated of it.
#[verifier::external_body]
pub(crate) fn clear_client_activity(
    client: &mut discord_rich_presence::DiscordIpcClient,
) -> Result<(), discord_rich_presence::error::Error> {
    client.clear_activity()
}

/// Shows `payload` as the client's activity (`DiscordIpc::set_activity`),
/// converting each field one for one into the crate's `Activity` builder.
/// The outcome depends on the socket; nothing is stated of it.
#[verifier::external_body]
pub(crate) fn send_activity(
    client: &mut discord_rich_presence::DiscordIpcClient,
    payload: &ActivityPayload,
) -> Result<(), discord_rich_presence::error::Error> {
    let buttons: Vec<Button> = payload.buttons.iter().map(
        |pair| Button::new(pair.0.as_str(), pair.1.as_str()),
    ).collect();
    client.set_activity(
        Activity::new()
            .state(payload.state.as_str())
            .details(payload.details.as_str())
            .timestamps(Timestamps::new().start(payload.start))
            .buttons(buttons)
            .assets(Assets::new().large_image(payload.large_image.as_str())),
    )
}

/// Maps the client's error to the library's own.
pub(crate) fn lift_error<T>(r: Result<T, discord_rich_presence::error::Error>) -> (out: Result<T, PresenceError>)
    ensures
        r is Ok <==> out is Ok,
        r matches Ok(v) ==> out == Ok::<T, PresenceError>(v),
        r is Err ==> out == Err::<T, PresenceError>(PresenceError::Ipc),
{
    match r {
        Ok(v) => Ok(v),
        Err(_) => Err(PresenceError::Ipc),
    }
}

} // verus!
