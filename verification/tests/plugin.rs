use shrs_presence::plugin::builtin::{BuiltinError, InfoOutcome, PresenceBuiltin};
use shrs_presence::plugin::daemon::{launch_outcome, plan_daemon, DaemonError};
use shrs_presence::plugin::{command_hook, startup_hook, PostBody, PresencePlugin, PresenceState};

#[test]
fn new_state_keeps_url() {
    let s = PresenceState::new("http://127.0.0.1:3000".to_string());
    assert_eq!(s.url(), "http://127.0.0.1:3000");
    assert_eq!((s.id() >> 76) & 0xf, 4);
}

#[test]
fn connect_request_is_json_id() {
    let s = PresenceState::new("http://127.0.0.1:3000".to_string());
    let p = s.connect_request();
    assert_eq!(p.url, "http://127.0.0.1:3000/connect");
    let mut object = serde_json::Map::new();
    object.insert(
        "id".to_string(),
        serde_json::Value::String(uuid::Uuid::from_u128(s.id()).to_string()),
    );
    let expected = serde_json::Value::Object(object).to_string();
    match p.body {
        PostBody::Json(b) => {
            assert_eq!(b, expected);
            assert_eq!(b, format!("{{\"id\":\"{}\"}}", uuid::Uuid::from_u128(s.id())));
        }
        PostBody::Text(_) => panic!("connect body must be JSON"),
    }
}

#[test]
fn command_request_is_plain_text() {
    let s = PresenceState::new("http://h:1".to_string());
    let p = s.command_request("cargo test --all");
    assert_eq!(p.url, "http://h:1/command/add");
    match p.body {
        PostBody::Text(b) => assert_eq!(b, "cargo test --all"),
        PostBody::Json(_) => panic!("command body must be text"),
    }
}

#[test]
fn info_url_appends_route() {
    let s = PresenceState::new("http://h:1".to_string());
    assert_eq!(s.info_url(), "http://h:1/info");
}

#[test]
fn hooks_need_state() {
    assert!(startup_hook(None).is_none());
    assert!(command_hook(None, "ls").is_none());
    let s = PresenceState::new("u".to_string());
    assert_eq!(startup_hook(Some(&s)).unwrap().url, "u/connect");
    assert_eq!(command_hook(Some(&s), "ls").unwrap().url, "u/command/add");
}

#[test]
fn plugin_repo() {
    assert_eq!(
        PresencePlugin::default().shell_repo(),
        "https://github.com/MrPicklePinosaur/shrs"
    );
    assert_eq!(PresencePlugin::new("r".to_string()).shell_repo(), "r");
}

#[test]
fn builtin_usage_error() {
    let b = PresenceBuiltin {};
    assert_eq!(b.run(false, None), Err(BuiltinError::Usage));
}

#[test]
fn builtin_without_state_does_nothing() {
    let b = PresenceBuiltin {};
    assert_eq!(b.run(true, None), Ok(None));
}

#[test]
fn builtin_fetches_info() {
    let b = PresenceBuiltin {};
    let s = PresenceState::new("http://127.0.0.1:3000".to_string());
    assert_eq!(
        b.run(true, Some(&s)),
        Ok(Some("http://127.0.0.1:3000/info".to_string()))
    );
}

#[test]
fn builtin_reports() {
    let b = PresenceBuiltin {};
    assert_eq!(b.report(InfoOutcome::Unreachable), Ok("No server running".to_string()));
    assert_eq!(b.report(InfoOutcome::Body("{}".to_string())), Ok("{}".to_string()));
    assert_eq!(b.report(InfoOutcome::UnreadableBody), Err(BuiltinError::UnreadableBody));
}

#[test]
fn daemon_needs_home() {
    assert!(matches!(plan_daemon(None, "/c"), Err(DaemonError::NoHomeDir)));
    assert_eq!(DaemonError::NoHomeDir.message(), "No Home Dir");
    assert_eq!(DaemonError::LaunchctlFailed.message(), "launchctl failed");
}

#[test]
fn daemon_plan_paths_and_text() {
    let plan = plan_daemon(Some("/Users/me"), "/Users/me/.config/shrs").ok().unwrap();
    assert_eq!(plan.program, "/Users/me/.cargo/bin/shrs_presence_server");
    assert_eq!(plan.directory, "/Users/me/.config/shrs/presence");
    assert_eq!(
        plan.plist_path,
        "/Users/me/.config/shrs/presence/com.nithin.shrs_presence_server.plist"
    );
    let expected = format!(
        r#"<?xml version="1.0" encoding="UTF-8"?>
<!DOCTYPE plist PUBLIC "-//Apple//DTD PLIST 1.0//EN" "http://www.apple.com/DTDs/PropertyList-1.0.dtd">
<plist version="1.0">
   <dict>
       <key>Label</key>
       <string>com.nithin.shrs_presence_server</string>
       <key>Program</key>
       <string>{}</string>
       <key>RunAtLoad</key>
       <true/>
       <key>StandardOutPath</key>
       <string>{}/presence/logfile.log</string>
       <key>StandardErrorPath</key>
       <string>{}/presence/error.log</string>
   </dict>
</plist>"#,
        "/Users/me/.cargo/bin/shrs_presence_server",
        "/Users/me/.config/shrs",
        "/Users/me/.config/shrs"
    );
    assert_eq!(plan.plist, expected);
}

#[test]
fn daemon_plan_with_trailing_slash_home() {
    let plan = plan_daemon(Some("/home/me/"), "cfg").ok().unwrap();
    assert_eq!(plan.program, "/home/me/.cargo/bin/shrs_presence_server");
    assert_eq!(plan.plist_path, "cfg/presence/com.nithin.shrs_presence_server.plist");
}

#[test]
fn launch_outcomes() {
    assert_eq!(launch_outcome(true), Ok(()));
    assert_eq!(launch_outcome(false), Err(DaemonError::LaunchctlFailed));
}

#[test]
fn connect_body_for_known_id_shape() {
    for _ in 0..8 {
        let s = PresenceState::new("x".to_string());
        let p = s.connect_request();
        let b = match p.body {
            PostBody::Json(b) => b,
            PostBody::Text(_) => panic!("connect body must be JSON"),
        };
        assert_eq!(b.len(), 7 + 36 + 2);
        assert!(b.starts_with("{\"id\":\""));
        let text = &b[7..43];
        assert_eq!(text.chars().filter(|c| *c == '-').count(), 4);
        assert!(text.chars().all(|c| c == '-' || c.is_ascii_digit() || ('a'..='f').contains(&c)));
        assert_eq!(uuid::Uuid::parse_str(text).unwrap().as_u128(), s.id());
    }
}

#[test]
fn fresh_plugin_ids_differ() {
    let a = PresenceState::new("x".to_string());
    let b = PresenceState::new("x".to_string());
    assert_ne!(a.id(), b.id());
    assert_eq!((b.id() >> 62) & 0x3, 2);
}
