//! Installing the presence server as a launch agent: where its files go and
//! what the agent's property list says.

use vstd::prelude::*;
use crate::text::{join_path, path_join};

verus! {

/// The property list up to the program it runs.
pub const PLIST_HEAD: &'static str = "<?xml version=\"1.0\" encoding=\"UTF-8\"?>\n<!DOCTYPE plist PUBLIC \"-//Apple//DTD PLIST 1.0//EN\" \"http://www.apple.com/DTDs/PropertyList-1.0.dtd\">\n<plist version=\"1.0\">\n   <dict>\n       <key>Label</key>\n       <string>com.nithin.shrs_presence_server</string>\n       <key>Program</key>\n       <string>";

/// The property list from after the program up to the directory of its output log.
pub const PLIST_AFTER_PROGRAM: &'static str = "</string>\n       <key>RunAtLoad</key>\n       <true/>\n       <key>StandardOutPath</key>\n       <string>";

/// The property list from the output log up to the directory of its error log.
pub const PLIST_AFTER_LOG_DIR: &'static str = "/presence/logfile.log</string>\n       <key>StandardErrorPath</key>\n       <string>";

/// The end of the property list, from the error log on.
pub const PLIST_TAIL: &'static str = "/presence/error.log</string>\n   </dict>\n</plist>";

/// Where, under the home directory, the server's binary is installed.
pub open spec fn program_subpath() -> Seq<char> {
    ".cargo/bin/shrs_presence_server"@
}

/// The directory, under the shell's configuration directory, that holds the
/// agent's files.
pub open spec fn agent_subdir() -> Seq<char> {
    "presence"@
}

/// Where, under the shell's configuration directory, the agent's property
/// list is written.
pub open spec fn plist_subpath() -> Seq<char> {
    "presence/com.nithin.shrs_presence_server.plist"@
}

/// The launch agent's property list: it runs `program` at load, and sends
/// its output and errors to `logfile.log` and `error.log` in the `presence`
/// directory under `config_dir`.
pub open spec fn plist_text(program: Seq<char>, config_dir: Seq<char>) -> Seq<char> {
    PLIST_HEAD@ + program + PLIST_AFTER_PROGRAM@ + config_dir + PLIST_AFTER_LOG_DIR@ + config_dir
        + PLIST_TAIL@
}

/// Why the launch agent could not be set up.
#[derive(Debug, Clone, Copy, PartialEq, Eq, Structural)]
pub enum DaemonError {
    /// The user has no home directory.
    NoHomeDir,
    /// `launchctl` did not load the agent.
    LaunchctlFailed,
}

impl DaemonError {
    /// The message the error is reported with.
    pub fn message(&self) -> (r: &'static str)
        ensures
            *self == DaemonError::NoHomeDir ==> r@ == "No Home Dir"@,
            *self == DaemonError::LaunchctlFailed ==> r@ == "launchctl failed"@,
    {
        match self {
            DaemonError::NoHomeDir => "No Home Dir",
            DaemonError::LaunchctlFailed => "launchctl failed",
        }
    }
}

/// The files of the launch agent: the server's binary, the directory of the
/// agent's files, the property list's path and its text.
pub struct DaemonPlan {
    pub program: String,
    pub directory: String,
    pub plist_path: String,
    pub plist: String,
}

/// Plans the launch agent for a user whose home directory is `home` (none
/// when the user has none) and a shell whose configuration directory is
/// `config_dir`.
pub fn plan_daemon(home: Option<&str>, config_dir: &str) -> (r: Result<DaemonPlan, DaemonError>)
    ensures
        home is None ==> r is Err && r == Err::<DaemonPlan, DaemonError>(DaemonError::NoHomeDir),
        home matches Some(h) ==> {
            &&& r matches Ok(plan)
            &&& plan.program@ == path_join(h@, program_subpath())
            &&& plan.directory@ == path_join(config_dir@, agent_subdir())
            &&& plan.plist_path@ == path_join(config_dir@, plist_subpath())
            &&& plan.plist@ == plist_text(plan.program@, config_dir@)
        },
{
    let h = match home {
        Some(h) => h,
        None => return Err(DaemonError::NoHomeDir),
    };
    let program = join_path(h, ".cargo/bin/shrs_presence_server");
    let directory = join_path(config_dir, "presence");
    let plist_path = join_path(config_dir, "presence/com.nithin.shrs_presence_server.plist");
    let plist = String::from_str(PLIST_HEAD)
        .concat(program.as_str())
        .concat(PLIST_AFTER_PROGRAM)
        .concat(config_dir)
        .concat(PLIST_AFTER_LOG_DIR)
        .concat(config_dir)
        .concat(PLIST_TAIL);
    Ok(DaemonPlan { program, directory, plist_path, plist })
}

/// The outcome of loading the agent, from whether `launchctl` succeeded.
pub fn launch_outcome(success: bool) -> (r: Result<(), DaemonError>)
    ensures
        success <==> r is Ok,
        !success ==> r == Err::<(), DaemonError>(DaemonError::LaunchctlFailed),
{
    if success {
        Ok(())
    } else {
        Err(DaemonError::LaunchctlFailed)
    }
}

} // verus!
