//! What the server's HTTP routes and its periodic heartbeat do to the state,
//! and what they answer.

use vstd::prelude::*;
use crate::discord::{ClientCall, PresenceError};
use crate::ids::{parse_session_id, uuid_parse_result, uuid_text};
use crate::server::state::{buttons_view, live_sessions, PresenceState};

verus! {

broadcast use vstd::std_specs::hash::group_hash_axioms;

/// The HTTP status of a request that was carried out.
pub const STATUS_OK: u16 = 200;

/// The HTTP status of a request whose body is not understood.
pub const STATUS_BAD_REQUEST: u16 = 400;

/// The body of a `/connect` request: the session's identifier, as text.
#[derive(Debug)]
pub struct Session {
    pub id: String,
}

/// A snapshot of the server's state, as `/info` reports it.
#[derive(Debug)]
pub struct PresenceInfo {
    pub connected: bool,
    pub start: i64,
    pub commands_used: i32,
    pub sessions: usize,
    pub last_command: String,
}

/// What the heartbeat asks of the program after a beat.
#[derive(Debug, Clone, Copy, PartialEq, Eq, Structural)]
pub enum Heartbeat {
    /// Sessions remain: keep running.
    Continue,
    /// No session is left: the server stops.
    Exit,
}

/// `/connect`: registers the session whose identifier the body holds, seen at
/// `now` (monotonic milliseconds; `wall_ms` is the wall-clock time), and
/// refreshes the activity. A body whose identifier does not parse is refused
/// with [`STATUS_BAD_REQUEST`] and changes nothing.
pub fn connect(state: &mut PresenceState, body: &Session, now: u64, wall_ms: i64) -> (r: Result<u16, PresenceError>)
    ensures
        old(state).tracks_client() ==> final(state).tracks_client(),
        uuid_parse_result(body.id@) is None ==> {
            &&& r == Ok::<u16, PresenceError>(STATUS_BAD_REQUEST)
            &&& final(state).same_data(old(state))
            &&& final(state).client == old(state).client
            &&& final(state).calls@ == old(state).calls@
        },
        uuid_parse_result(body.id@) matches Some(id) ==> {
            &&& final(state).sessions@ == old(state).sessions@.insert(id, now)
            &&& final(state).start == (if old(state).sessions@.len() == 0 {
                wall_ms
            } else {
                old(state).start
            })
            &&& old(state).connected ==> final(state).connected
            &&& final(state).commands_used == old(state).commands_used
            &&& buttons_view(final(state).buttons@) == buttons_view(old(state).buttons@)
            &&& final(state).last_command@ == old(state).last_command@
            &&& r matches Ok(code) ==> code == STATUS_OK
            &&& !final(state).connected ==> r == Ok::<u16, PresenceError>(STATUS_OK)
            &&& final(state).calls@ == old(state).calls@ + (if old(state).connected {
                Seq::<ClientCall>::empty()
            } else {
                seq![ClientCall::Connect { ok: final(state).connected }]
            }) + (if final(state).connected {
                seq![ClientCall::Show { activity: final(state).shown_activity(), ok: r is Ok }]
            } else {
                Seq::<ClientCall>::empty()
            })
        },
        forall|v: u128| #[trigger] uuid_text(v) == body.id@
            ==> final(state).sessions@ == old(state).sessions@.insert(v, now)
                && (r matches Ok(code) ==> code == STATUS_OK)
                && (!final(state).connected ==> r == Ok::<u16, PresenceError>(STATUS_OK)),
{
    match parse_session_id(body.id.as_str()) {
        Some(id) => {
            let ghost before = state.calls@;
            let ghost was_connected = state.connected;
            state.connect(id, now, wall_ms);
            let ghost after_connect = state.calls@;
            let shown = state.update_activity();
            proof {
                let connect_part = if was_connected {
                    Seq::<ClientCall>::empty()
                } else {
                    seq![ClientCall::Connect { ok: state.connected }]
                };
                let show_part = if state.connected {
                    seq![ClientCall::Show { activity: state.shown_activity(), ok: shown is Ok }]
                } else {
                    Seq::<ClientCall>::empty()
                };
                assert(after_connect =~= before + connect_part);
                assert(state.calls@ =~= before + connect_part + show_part);
            }
            match shown {
                Ok(()) => Ok(STATUS_OK),
                Err(e) => Err(e),
            }
        },
        None => Ok(STATUS_BAD_REQUEST),
    }
}

/// `/disconnect`: disconnects from Discord.
pub fn disconnect(state: &mut PresenceState) -> (r: Result<u16, PresenceError>)
    ensures
        old(state).tracks_client() ==> final(state).tracks_client(),
        !final(state).connected,
        final(state).start == old(state).start,
        final(state).commands_used == old(state).commands_used,
        final(state).sessions@ == old(state).sessions@,
        buttons_view(final(state).buttons@) == buttons_view(old(state).buttons@),
        final(state).last_command@ == old(state).last_command@,
        r matches Ok(code) ==> code == STATUS_OK,
        final(state).calls@ == old(state).calls@.push(ClientCall::Close { ok: r is Ok }),
{
    match state.disconnect() {
        Ok(()) => Ok(STATUS_OK),
        Err(e) => Err(e),
    }
}

/// `/info`: a snapshot of the state.
pub fn info(state: &PresenceState) -> (i: PresenceInfo)
    ensures
        i.connected == state.connected,
        i.start == state.start,
        i.commands_used == state.commands_used,
        i.sessions == state.sessions@.len(),
        i.last_command@ == state.last_command@,
{
    PresenceInfo {
        connected: state.connected,
        start: state.start,
        commands_used: state.commands_used,
        sessions: state.sessions.len(),
        last_command: state.last_command.clone(),
    }
}

/// `/command/add`: counts one more command, remembers it as the last one,
/// and refreshes the activity.
pub fn add_command(state: &mut PresenceState, body: String) -> (r: Result<u16, PresenceError>)
    requires
        old(state).commands_used < i32::MAX,
    ensures
        final(state).commands_used == old(state).commands_used + 1,
        old(state).tracks_client() ==> final(state).tracks_client(),
        final(state).last_command@ == body@,
        final(state).connected == old(state).connected,
        final(state).start == old(state).start,
        final(state).sessions@ == old(state).sessions@,
        buttons_view(final(state).buttons@) == buttons_view(old(state).buttons@),
        r matches Ok(code) ==> code == STATUS_OK,
        !old(state).connected ==> r == Ok::<u16, PresenceError>(STATUS_OK)
            && final(state).client == old(state).client
            && final(state).calls@ == old(state).calls@,
        old(state).connected ==> final(state).calls@ == old(state).calls@.push(
            ClientCall::Show { activity: final(state).shown_activity(), ok: r is Ok },
        ),
{
    state.commands_used = state.commands_used + 1;
    state.last_command = body;
    match state.update_activity() {
        Ok(()) => Ok(STATUS_OK),
        Err(e) => Err(e),
    }
}

/// One heartbeat at `now` (monotonic milliseconds): forgets the sessions that
/// died; when none is left the server is to exit, otherwise the activity is
/// refreshed.
pub fn heartbeat(state: &mut PresenceState, now: u64) -> (r: Result<Heartbeat, PresenceError>)
    ensures
        old(state).tracks_client() ==> final(state).tracks_client(),
        final(state).sessions@ == live_sessions(old(state).sessions@, now),
        final(state).connected == old(state).connected,
        final(state).start == old(state).start,
        final(state).commands_used == old(state).commands_used,
        buttons_view(final(state).buttons@) == buttons_view(old(state).buttons@),
        final(state).last_command@ == old(state).last_command@,
        final(state).sessions@.len() == 0 <==> r == Ok::<Heartbeat, PresenceError>(Heartbeat::Exit),
        final(state).sessions@.len() != 0 && !old(state).connected ==> r == Ok::<Heartbeat, PresenceError>(Heartbeat::Continue),
        final(state).sessions@.len() == 0 || !old(state).connected ==> final(state).client == old(state).client
            && final(state).calls@ == old(state).calls@,
        final(state).sessions@.len() != 0 && old(state).connected ==> final(state).calls@ == old(state).calls@.push(
            ClientCall::Show { activity: final(state).shown_activity(), ok: r is Ok },
        ),
{
    state.drop_dead_sessions(now);
    if state.sessions.len() == 0 {
        return Ok(Heartbeat::Exit);
    }
    match state.update_activity() {
        Ok(()) => Ok(Heartbeat::Continue),
        Err(e) => Err(e),
    }
}

} // verus!
