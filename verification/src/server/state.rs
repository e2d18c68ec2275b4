//! The state of the presence server.

use vstd::prelude::*;
use std::collections::HashMap;
use vstd::std_specs::hash::spec_hash_map_iter;
use vstd::std_specs::iter::IteratorSpec;
use crate::discord::{
    clear_client_activity, close_client, connect_client, lift_error, new_client, send_activity,
    ActivityPayload, ActivityView, ClientCall, PresenceError,
};
use crate::discord::{history_connected, lemma_history_step};
use crate::text::{decimal, decimal_string, signed_decimal, signed_decimal_string};

verus! {

broadcast use vstd::std_specs::hash::group_hash_axioms;

/// How long a session lives after its last connect, in milliseconds.
pub const SESSION_TIMEOUT_MS: u64 = 20000;

/// A session last seen at `seen` is still alive at `now` (both in
/// milliseconds on one monotonic clock) while less than
/// [`SESSION_TIMEOUT_MS`] have passed since.
pub open spec fn alive(seen: u64, now: u64) -> bool {
    now < seen + SESSION_TIMEOUT_MS
}

/// The sessions of `m` that are alive at `now`, with their times.
pub open spec fn live_sessions(m: Map<u128, u64>, now: u64) -> Map<u128, u64> {
    Map::new(|k: u128| m.contains_key(k) && alive(m[k], now), |k: u128| m[k])
}

/// The details line of the server's activity.
pub open spec fn server_details(sessions: nat, commands: int) -> Seq<char> {
    "Sessions "@ + decimal(sessions) + "; Commands "@ + signed_decimal(commands) + ";"@
}

/// The state line of the server's activity: the last command run.
pub open spec fn command_line(last: Seq<char>) -> Seq<char> {
    "> "@ + last
}

/// The label of the one button of the server's activity.
pub open spec fn repo_button_label() -> Seq<char> {
    "Shell Repo"@
}

/// The url of the one button of the server's activity.
pub open spec fn repo_button_url() -> Seq<char> {
    "https://github.com/MrPicklePinosaur/shrs"@
}

/// The image shown with every activity.
pub open spec fn large_image_key() -> Seq<char> {
    "shrs-1024x1024"@
}

/// No two buttons carry the same label (the labels are keys).
pub open spec fn distinct_labels(b: Seq<(Seq<char>, Seq<char>)>) -> bool {
    forall|i: int, j: int| 0 <= i < j < b.len() ==> b[i].0 != b[j].0
}

/// The view of a list of (label, url) buttons.
pub open spec fn buttons_view(b: Seq<(String, String)>) -> Seq<(Seq<char>, Seq<char>)> {
    b.map_values(|p: (String, String)| (p.0@, p.1@))
}

/// A session that has just connected is alive: dropping the dead sessions
/// at the time of the connect keeps it, with that time.
pub proof fn lemma_fresh_session_alive(m: Map<u128, u64>, id: u128, now: u64)
    ensures
        live_sessions(m.insert(id, now), now).contains_key(id),
        live_sessions(m.insert(id, now), now)[id] == now,
{
}

/// Dropping the dead sessions twice at the same time drops nothing more.
pub proof fn lemma_drop_idempotent(m: Map<u128, u64>, now: u64)
    ensures
        live_sessions(live_sessions(m, now), now) == live_sessions(m, now),
{
    assert(live_sessions(live_sessions(m, now), now) =~= live_sessions(m, now));
}

/// Dropping the dead sessions at an earlier time and then at a later one is
/// the same as dropping them at the later one only: a session dead at some
/// time stays dead afterwards.
pub proof fn lemma_drop_later_subsumes(m: Map<u128, u64>, earlier: u64, later: u64)
    requires
        earlier <= later,
    ensures
        live_sessions(live_sessions(m, earlier), later) == live_sessions(m, later),
{
    assert(live_sessions(live_sessions(m, earlier), later) =~= live_sessions(m, later));
}

/// Dropping the dead sessions only ever forgets sessions; it never adds one
/// or changes a time.
pub proof fn lemma_drop_shrinks(m: Map<u128, u64>, now: u64)
    ensures
        live_sessions(m, now).submap_of(m),
{
}

/// The state of the presence server.
///
/// `sessions` maps each session (a UUID as a number) to the time it last
/// connected, in milliseconds on the server's monotonic clock. `start` is the
/// wall-clock time (milliseconds since the Unix epoch) at which the current
/// run of sessions began. `buttons` are the (label, url) pairs shown with the
/// activity. `calls` is the history of the requests made to the Discord
/// client, each with whether it succeeded.
pub struct PresenceState {
    pub client: discord_rich_presence::DiscordIpcClient,
    pub connected: bool,
    pub start: i64,
    pub commands_used: i32,
    pub sessions: HashMap<u128, u64>,
    pub buttons: Vec<(String, String)>,
    pub last_command: String,
    pub calls: Ghost<Seq<ClientCall>>,
}

impl PresenceState {
    /// Everything but the Discord client is the same in `self` and `other`.
    pub open spec fn same_data(&self, other: &PresenceState) -> bool {
        &&& self.connected == other.connected
        &&& self.start == other.start
        &&& self.commands_used == other.commands_used
        &&& self.sessions@ == other.sessions@
        &&& buttons_view(self.buttons@) == buttons_view(other.buttons@)
        &&& self.last_command@ == other.last_command@
    }

    /// The `connected` flag agrees with the history of client requests: it
    /// is set exactly when the latest connect or close was a connect that
    /// succeeded.
    pub open spec fn tracks_client(&self) -> bool {
        self.connected == history_connected(self.calls@)
    }

    /// The activity that `self` describes, as values.
    pub open spec fn shown_activity(&self) -> ActivityView {
        ActivityView {
            state: command_line(self.last_command@),
            details: server_details(self.sessions@.len(), self.commands_used as int),
            start: self.start,
            buttons: buttons_view(self.buttons@),
            large_image: large_image_key(),
        }
    }

    /// The activity that `self` describes.
    pub open spec fn activity_matches(&self, p: &ActivityPayload) -> bool {
        &&& p.state@ == command_line(self.last_command@)
        &&& p.details@ == server_details(self.sessions@.len(), self.commands_used as int)
        &&& p.start == self.start
        &&& buttons_view(p.buttons@) == buttons_view(self.buttons@)
        &&& p.large_image@ == large_image_key()
    }

    /// A fresh server: not connected, no session, no command, and the one
    /// repository button.
    pub fn new() -> (s: PresenceState)
        ensures
            !s.connected,
            s.start == 0,
            s.commands_used == 0,
            s.sessions@ == Map::<u128, u64>::empty(),
            buttons_view(s.buttons@) == seq![(repo_button_label(), repo_button_url())],
            distinct_labels(buttons_view(s.buttons@)),
            s.last_command@ == Seq::<char>::empty(),
            s.calls@ == Seq::<ClientCall>::empty(),
            s.tracks_client(),
    {
        let mut buttons: Vec<(String, String)> = Vec::new();
        buttons.push(
            (
                String::from_str("Shell Repo"),
                String::from_str("https://github.com/MrPicklePinosaur/shrs"),
            ),
        );
        let s = PresenceState {
            client: new_client("1188721913586003988"),
            start: 0,
            commands_used: 0,
            sessions: HashMap::new(),
            connected: false,
            buttons,
            last_command: String::new(),
            calls: Ghost(Seq::empty()),
        };
        assert(buttons_view(s.buttons@) =~= seq![(repo_button_label(), repo_button_url())]);
        s
    }

    /// Registers `session` as seen at `now` (monotonic milliseconds). When it
    /// is the first session, the activity's start becomes `wall_ms` (the
    /// wall-clock time in milliseconds). A client that is not connected yet
    /// tries to connect to Discord.
    pub fn connect(&mut self, session: u128, now: u64, wall_ms: i64)
        ensures
            final(self).sessions@ == old(self).sessions@.insert(session, now),
            final(self).start == (if old(self).sessions@.len() == 0 {
                wall_ms
            } else {
                old(self).start
            }),
            old(self).connected ==> final(self).connected && final(self).client == old(self).client
                && final(self).calls@ == old(self).calls@,
            !old(self).connected ==> final(self).calls@ == old(self).calls@.push(
                ClientCall::Connect { ok: final(self).connected },
            ),
            final(self).commands_used == old(self).commands_used,
            buttons_view(final(self).buttons@) == buttons_view(old(self).buttons@),
            final(self).last_command@ == old(self).last_command@,
            old(self).tracks_client() ==> final(self).tracks_client(),
    {
        if self.sessions.len() == 0 {
            self.start = wall_ms;
        }
        self.sessions.insert(session, now);
        if !self.connected {
            let attempt = connect_client(&mut self.client);
            proof {
                lemma_history_step(self.calls@, ClientCall::Connect { ok: attempt is Ok });
                self.calls@ = self.calls@.push(ClientCall::Connect { ok: attempt is Ok });
            }
            self.connected = attempt.is_ok();
        }
    }

    /// Marks the client as disconnected and closes its connection.
    pub fn disconnect(&mut self) -> (r: Result<(), PresenceError>)
        ensures
            !final(self).connected,
            final(self).start == old(self).start,
            final(self).commands_used == old(self).commands_used,
            final(self).sessions@ == old(self).sessions@,
            buttons_view(final(self).buttons@) == buttons_view(old(self).buttons@),
            final(self).last_command@ == old(self).last_command@,
            final(self).calls@ == old(self).calls@.push(ClientCall::Close { ok: r is Ok }),
            final(self).tracks_client(),
    {
        self.connected = false;
        let closed = close_client(&mut self.client);
        proof {
            lemma_history_step(self.calls@, ClientCall::Close { ok: closed is Ok });
            self.calls@ = self.calls@.push(ClientCall::Close { ok: closed is Ok });
        }
        lift_error(closed)
    }

    /// The activity the server shows: the last command as state line, the
    /// number of sessions and of commands as details, the start time, the
    /// buttons and the image.
    pub fn activity(&self) -> (p: ActivityPayload)
        ensures
            self.activity_matches(&p),
    {
        let mut details = String::from_str("Sessions ");
        let n = decimal_string(self.sessions.len() as u64);
        details.append(n.as_str());
        details.append("; Commands ");
        let c = signed_decimal_string(self.commands_used as i64);
        details.append(c.as_str());
        details.append(";");
        let state = String::from_str("> ").concat(self.last_command.as_str());
        let mut buttons: Vec<(String, String)> = Vec::new();
        let mut i: usize = 0;
        while i < self.buttons.len()
            invariant
                0 <= i <= self.buttons.len(),
                buttons.len() == i,
                forall|j: int|
                    0 <= j < i ==> (#[trigger] buttons@[j]).0@ == self.buttons@[j].0@
                        && buttons@[j].1@ == self.buttons@[j].1@,
            decreases self.buttons.len() - i,
        {
            let label = self.buttons[i].0.clone();
            let url = self.buttons[i].1.clone();
            buttons.push((label, url));
            i = i + 1;
        }
        let p = ActivityPayload {
            state,
            details,
            start: self.start,
            buttons,
            large_image: String::from_str("shrs-1024x1024"),
        };
        assert(buttons_view(p.buttons@) =~= buttons_view(self.buttons@));
        p
    }


    /// Forgets the sessions that are no longer alive at `now` (monotonic
    /// milliseconds), keeping the others with their times.
    pub fn drop_dead_sessions(&mut self, now: u64)
        ensures
            final(self).sessions@ == live_sessions(old(self).sessions@, now),
            final(self).client == old(self).client,
            final(self).calls@ == old(self).calls@,
            final(self).connected == old(self).connected,
            old(self).tracks_client() ==> final(self).tracks_client(),
            final(self).start == old(self).start,
            final(self).commands_used == old(self).commands_used,
            buttons_view(final(self).buttons@) == buttons_view(old(self).buttons@),
            final(self).last_command@ == old(self).last_command@,
    {
        let ghost old_sessions = self.sessions@;
        let ghost entries = spec_hash_map_iter(&self.sessions).remaining();
        let ghost mut seen: int = 0;
        let mut kept: HashMap<u128, u64> = HashMap::new();
        for entry in it: self.sessions.iter()
            invariant
                self.sessions@ == old_sessions,
                it.seq() == entries,
                seen == it.index(),
                forall|k: u128| #[trigger] kept@.contains_key(k) ==> old_sessions.contains_key(k)
                    && kept@[k] == old_sessions[k] && alive(old_sessions[k], now),
                forall|i: int| 0 <= i < it.index() && alive(*it.seq()[i].1, now)
                    ==> #[trigger] kept@.contains_key(*it.seq()[i].0),
        {
            let (k, v) = entry;
            if now < *v || now - *v < SESSION_TIMEOUT_MS {
                kept.insert(*k, *v);
            }
            proof {
                seen = seen + 1;
            }
        }
        proof {
            let v = entries;
            assert(seen == v.len());
            assert forall|k: u128| #[trigger] old_sessions.contains_key(k) && alive(old_sessions[k], now)
                implies kept@.contains_key(k) by {
                assert(v.contains((&k, &old_sessions[k])));
                let i = choose|i: int| 0 <= i < v.len() && v[i] == (&k, &old_sessions[k]);
                assert(*v[i].0 == k);
            }
        }
        assert(kept@ =~= live_sessions(old_sessions, now));
        self.sessions = kept;
    }

    /// Shows the server's activity on Discord; does nothing while the client
    /// is not connected.
    pub fn update_activity(&mut self) -> (r: Result<(), PresenceError>)
        ensures
            final(self).same_data(old(self)),
            !old(self).connected ==> r is Ok && final(self).client == old(self).client
                && final(self).calls@ == old(self).calls@,
            old(self).connected ==> final(self).calls@ == old(self).calls@.push(
                ClientCall::Show { activity: old(self).shown_activity(), ok: r is Ok },
            ),
            old(self).tracks_client() ==> final(self).tracks_client(),
    {
        if !self.connected {
            return Ok(());
        }
        let payload = self.activity();
        let sent = send_activity(&mut self.client, &payload);
        proof {
            assert(payload@ == self.shown_activity()) by {
                assert(payload@.buttons =~= buttons_view(payload.buttons@));
            }
            lemma_history_step(self.calls@, ClientCall::Show { activity: payload@, ok: sent is Ok });
            self.calls@ = self.calls@.push(ClientCall::Show { activity: payload@, ok: sent is Ok });
        }
        lift_error(sent)
    }

    /// Clears the activity shown on Discord.
    pub fn clear_activity(&mut self) -> (r: Result<(), PresenceError>)
        ensures
            final(self).same_data(old(self)),
            final(self).calls@ == old(self).calls@.push(ClientCall::Clear { ok: r is Ok }),
            old(self).tracks_client() ==> final(self).tracks_client(),
    {
        let cleared = clear_client_activity(&mut self.client);
        proof {
            lemma_history_step(self.calls@, ClientCall::Clear { ok: cleared is Ok });
            self.calls@ = self.calls@.push(ClientCall::Clear { ok: cleared is Ok });
        }
        lift_error(cleared)
    }
}

} // verus!
