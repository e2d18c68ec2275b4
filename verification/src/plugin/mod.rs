//! The shell plugin: it gives each shell a session identifier, tells the
//! presence server about the shell's startup and its commands, and keeps the
//! session alive with a periodic connect.

pub mod builtin;
pub mod daemon;

use vstd::prelude::*;
use crate::ids::{new_session_id, session_id_text, uuid_text};
use crate::protocol::{COMMAND_ROUTE, CONNECT_ROUTE, INFO_ROUTE};

verus! {

/// The body of an HTTP POST: JSON text, or plain text.
#[derive(Debug)]
pub enum PostBody {
    Json(String),
    Text(String),
}

/// An HTTP POST for the program to send.
#[derive(Debug)]
pub struct HttpPost {
    pub url: String,
    pub body: PostBody,
}

/// The JSON body that announces session `id`: `{"id":"<uuid>"}`.
pub open spec fn connect_body(id: u128) -> Seq<char> {
    "{\"id\":\""@ + uuid_text(id) + "\"}"@
}

/// The route, under the server's url, that registers a session.
pub open spec fn connect_route() -> Seq<char> {
    CONNECT_ROUTE@
}

/// The route, under the server's url, that counts a command.
pub open spec fn command_route() -> Seq<char> {
    COMMAND_ROUTE@
}

/// The route, under the server's url, that reports the server's state.
pub open spec fn info_route() -> Seq<char> {
    INFO_ROUTE@
}

/// The plugin's state in a shell: the presence server's url and the
/// shell's session identifier.
pub struct PresenceState {
    url: String,
    id: u128,
}

impl PresenceState {
    /// The presence server's url.
    pub closed spec fn url_view(&self) -> Seq<char> {
        self.url@
    }

    /// The shell's session identifier.
    pub closed spec fn id_view(&self) -> u128 {
        self.id
    }

    /// The state of a new shell that talks to the server at `url`, with a
    /// fresh random (version 4) session identifier.
    pub fn new(url: String) -> (s: PresenceState)
        ensures
            s.url_view() == url@,
            (s.id_view() >> 76u128) & 0xfu128 == 4u128,
            (s.id_view() >> 62u128) & 0x3u128 == 2u128,
    {
        let id = new_session_id();
        PresenceState { url, id }
    }

    /// The presence server's url.
    pub fn url(&self) -> (r: &String)
        ensures
            r@ == self.url_view(),
    {
        &self.url
    }

    /// The shell's session identifier.
    pub fn id(&self) -> (r: u128)
        ensures
            r == self.id_view(),
    {
        self.id
    }

    /// The POST that registers (or keeps alive) this shell's session:
    /// `{"id":"<uuid>"}` as JSON to `<url>/connect`.
    pub fn connect_request(&self) -> (r: HttpPost)
        ensures
            r.url@ == self.url_view() + connect_route(),
            r.body matches PostBody::Json(b) && b@ == connect_body(self.id_view()),
    {
        let url = self.url.clone().concat(CONNECT_ROUTE);
        let id_text = session_id_text(self.id);
        let body = String::from_str("{\"id\":\"").concat(id_text.as_str()).concat("\"}");
        HttpPost { url, body: PostBody::Json(body) }
    }

    /// The POST that tells the server about a command: the command line as
    /// plain text to `<url>/command/add`.
    pub fn command_request(&self, command: &str) -> (r: HttpPost)
        ensures
            r.url@ == self.url_view() + command_route(),
            r.body matches PostBody::Text(b) && b@ == command@,
    {
        let url = self.url.clone().concat(COMMAND_ROUTE);
        HttpPost { url, body: PostBody::Text(String::from_str(command)) }
    }

    /// The url at which the server reports its state: `<url>/info`.
    pub fn info_url(&self) -> (r: String)
        ensures
            r@ == self.url_view() + info_route(),
    {
        self.url.clone().concat(INFO_ROUTE)
    }
}

/// What the startup hook sends: the session's connect, when the shell has
/// the plugin's state.
pub fn startup_hook(state: Option<&PresenceState>) -> (r: Option<HttpPost>)
    ensures
        state is None <==> r is None,
        state matches Some(s) ==> {
            &&& r matches Some(p)
            &&& p.url@ == s.url_view() + connect_route()
            &&& p.body matches PostBody::Json(b)
            &&& b@ == connect_body(s.id_view())
        },
{
    match state {
        Some(s) => Some(s.connect_request()),
        None => None,
    }
}

/// What the hook run before each command sends: the command line, when the
/// shell has the plugin's state.
pub fn command_hook(state: Option<&PresenceState>, command: &str) -> (r: Option<HttpPost>)
    ensures
        state is None <==> r is None,
        state matches Some(s) ==> {
            &&& r matches Some(p)
            &&& p.url@ == s.url_view() + command_route()
            &&& p.body matches PostBody::Text(b)
            &&& b@ == command@
        },
{
    match state {
        Some(s) => Some(s.command_request(command)),
        None => None,
    }
}

/// The plugin, with the url of the shell's repository.
pub struct PresencePlugin {
    shell_repo: String,
}

/// The repository a plugin made by `Default` points to.
pub open spec fn default_shell_repo() -> Seq<char> {
    "https://github.com/MrPicklePinosaur/shrs"@
}

impl PresencePlugin {
    /// The url of the shell's repository.
    pub closed spec fn shell_repo_view(&self) -> Seq<char> {
        self.shell_repo@
    }

    /// A plugin for the shell whose repository is at `shell_repo`.
    pub fn new(shell_repo: String) -> (p: PresencePlugin)
        ensures
            p.shell_repo_view() == shell_repo@,
    {
        PresencePlugin { shell_repo }
    }

    /// The url of the shell's repository.
    pub fn shell_repo(&self) -> (r: &String)
        ensures
            r@ == self.shell_repo_view(),
    {
        &self.shell_repo
    }
}

impl Default for PresencePlugin {
    fn default() -> (p: PresencePlugin)
        ensures
            p.shell_repo_view() == default_shell_repo(),
    {
        PresencePlugin::new(String::from_str("https://github.com/MrPicklePinosaur/shrs"))
    }
}

} // verus!
