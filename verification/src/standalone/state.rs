//! The in-shell presence state.

use vstd::prelude::*;
use crate::discord::{
    clear_client_activity, close_client, connect_client, lift_error, new_client, send_activity,
    ActivityPayload, ActivityView, ClientCall, PresenceError,
};
use crate::discord::{history_connected, lemma_history_step};
use crate::server::state::{buttons_view, large_image_key, repo_button_label};
use crate::text::{join_path, path_join};

verus! {

/// What `std::path::Path::strip_prefix` leaves of `path` once the leading
/// components that make up `base` are taken off (as text), or nothing where
/// `path` does not start with `base`.
pub uninterp spec fn path_strip_prefix_result(path: Seq<char>, base: Seq<char>) -> Option<Seq<char>>;

/// Takes the components of `base` off the front of `path`.
///
/// Calls `std::path::Path::strip_prefix` and gives the rest as text (both
/// inputs are valid UTF-8, so the text is exact). The result is named.
#[verifier::external_body]
pub(crate) fn strip_path_prefix(path: &str, base: &str) -> (r: Option<String>)
    ensures
        r is Some <==> path_strip_prefix_result(path@, base@) is Some,
        r matches Some(rest) ==> path_strip_prefix_result(path@, base@) == Some(rest@),
{
    std::path::Path::new(path).strip_prefix(base).ok().map(|rest| rest.to_string_lossy().into_owned())
}

/// The working directory as shown: with the home directory written as `~`
/// when the directory lies under it.
pub open spec fn shown_dir(wd: Seq<char>, home: Seq<char>) -> Seq<char> {
    match path_strip_prefix_result(wd, home) {
        Some(rest) => path_join("~"@, rest),
        None => wd,
    }
}

/// The details line: a folder sign and the shown working directory.
pub open spec fn dir_details(wd: Seq<char>, home: Seq<char>) -> Seq<char> {
    "📁 "@ + shown_dir(wd, home)
}

/// The url of the button of the in-shell activity.
pub open spec fn author_button_url() -> Seq<char> {
    "https://github.com/nithinmuthukumar"@
}

/// The in-shell presence state: the Discord client, whether it is
/// connected, the start of the activity (milliseconds since the Unix
/// epoch), the number of commands run, the working directory, and the
/// history of the requests made to the Discord client, each with whether it
/// succeeded.
pub struct PresenceState {
    pub client: discord_rich_presence::DiscordIpcClient,
    pub connected: bool,
    pub start: i64,
    pub commands_used: i32,
    pub working_dir: String,
    pub calls: Ghost<Seq<ClientCall>>,
}

impl PresenceState {
    /// Everything but the Discord client is the same in `self` and `other`.
    pub open spec fn same_data(&self, other: &PresenceState) -> bool {
        &&& self.connected == other.connected
        &&& self.start == other.start
        &&& self.commands_used == other.commands_used
        &&& self.working_dir@ == other.working_dir@
    }

    /// The `connected` flag agrees with the history of client requests: it
    /// is set exactly when the latest connect or close was a connect that
    /// succeeded.
    pub open spec fn tracks_client(&self) -> bool {
        self.connected == history_connected(self.calls@)
    }

    /// The activity shown for the state line `state` with home directory
    /// `home`, as values.
    pub open spec fn shown_activity(&self, state: Seq<char>, home: Seq<char>) -> ActivityView {
        ActivityView {
            state: state,
            details: dir_details(self.working_dir@, home),
            start: self.start,
            buttons: seq![(repo_button_label(), author_button_url())],
            large_image: large_image_key(),
        }
    }

    /// A state whose activity starts at `start_ms` (milliseconds since the
    /// Unix epoch): not connected, no command, empty working directory.
    pub fn new(start_ms: i64) -> (s: PresenceState)
        ensures
            !s.connected,
            s.start == start_ms,
            s.commands_used == 0,
            s.working_dir@ == Seq::<char>::empty(),
            s.calls@ == Seq::<ClientCall>::empty(),
            s.tracks_client(),
    {
        PresenceState {
            client: new_client("1188721913586003988"),
            start: start_ms,
            commands_used: 0,
            working_dir: String::new(),
            connected: false,
            calls: Ghost(Seq::empty()),
        }
    }

    /// Connects to Discord; tells, and remembers, whether that worked.
    pub fn connect(&mut self) -> (r: bool)
        ensures
            final(self).connected == r,
            final(self).start == old(self).start,
            final(self).commands_used == old(self).commands_used,
            final(self).working_dir@ == old(self).working_dir@,
            final(self).calls@ == old(self).calls@.push(ClientCall::Connect { ok: r }),
            final(self).tracks_client(),
    {
        let attempt = connect_client(&mut self.client);
        proof {
            lemma_history_step(self.calls@, ClientCall::Connect { ok: attempt is Ok });
            self.calls@ = self.calls@.push(ClientCall::Connect { ok: attempt is Ok });
        }
        self.connected = attempt.is_ok();
        self.connected
    }

    /// Marks the client as disconnected and closes its connection (a failure
    /// to close is ignored).
    pub fn disconnect(&mut self)
        ensures
            !final(self).connected,
            final(self).start == old(self).start,
            final(self).commands_used == old(self).commands_used,
            final(self).working_dir@ == old(self).working_dir@,
            final(self).calls@.len() == old(self).calls@.len() + 1,
            final(self).calls@.drop_last() == old(self).calls@,
            final(self).calls@.last() is Close,
            final(self).tracks_client(),
    {
        self.connected = false;
        let closed = close_client(&mut self.client);
        proof {
            let before = self.calls@;
            lemma_history_step(self.calls@, ClientCall::Close { ok: closed is Ok });
            self.calls@ = self.calls@.push(ClientCall::Close { ok: closed is Ok });
            assert(self.calls@.drop_last() =~= before);
        }
    }

    /// The activity shown for the state line `state`, where `home` is the
    /// user's home directory.
    pub fn activity(&self, state: &str, home: &str) -> (p: ActivityPayload)
        ensures
            p.state@ == state@,
            p.details@ == dir_details(self.working_dir@, home@),
            p.start == self.start,
            buttons_view(p.buttons@) == seq![(repo_button_label(), author_button_url())],
            p.large_image@ == large_image_key(),
    {
        let shown = match strip_path_prefix(self.working_dir.as_str(), home) {
            Some(rest) => join_path("~", rest.as_str()),
            None => self.working_dir.clone(),
        };
        let details = String::from_str("📁 ").concat(shown.as_str());
        let mut buttons: Vec<(String, String)> = Vec::new();
        buttons.push(
            (String::from_str("Shell Repo"), String::from_str("https://github.com/nithinmuthukumar")),
        );
        let p = ActivityPayload {
            state: String::from_str(state),
            details,
            start: self.start,
            buttons,
            large_image: String::from_str("shrs-1024x1024"),
        };
        assert(buttons_view(p.buttons@) =~= seq![(repo_button_label(), author_button_url())]);
        p
    }

    /// Shows the activity for the state line `state` on Discord (`home` is
    /// the user's home directory); does nothing while not connected.
    pub fn update_activity(&mut self, state: &str, home: &str) -> (r: Result<(), PresenceError>)
        ensures
            final(self).same_data(old(self)),
            !old(self).connected ==> r is Ok && final(self).client == old(self).client
                && final(self).calls@ == old(self).calls@,
            old(self).connected ==> final(self).calls@ == old(self).calls@.push(
                ClientCall::Show { activity: old(self).shown_activity(state@, home@), ok: r is Ok },
            ),
            old(self).tracks_client() ==> final(self).tracks_client(),
    {
        if !self.connected {
            return Ok(());
        }
        let payload = self.activity(state, home);
        let sent = send_activity(&mut self.client, &payload);
        proof {
            assert(payload@ == self.shown_activity(state@, home@)) by {
                assert(payload@.buttons =~= buttons_view(payload.buttons@));
            }
            lemma_history_step(self.calls@, ClientCall::Show { activity: payload@, ok: sent is Ok });
            self.calls@ = self.calls@.push(ClientCall::Show { activity: payload@, ok: sent is Ok });
        }
        lift_error(sent)
    }

    /// Clears the activity shown on Discord (a failure is ignored).
    pub fn clear_activity(&mut self)
        ensures
            final(self).same_data(old(self)),
            final(self).calls@.len() == old(self).calls@.len() + 1,
            final(self).calls@.drop_last() == old(self).calls@,
            final(self).calls@.last() is Clear,
            old(self).tracks_client() ==> final(self).tracks_client(),
    {
        let cleared = clear_client_activity(&mut self.client);
        proof {
            let before = self.calls@;
            lemma_history_step(self.calls@, ClientCall::Clear { ok: cleared is Ok });
            self.calls@ = self.calls@.push(ClientCall::Clear { ok: cleared is Ok });
            assert(self.calls@.drop_last() =~= before);
        }
    }
}

} // verus!
