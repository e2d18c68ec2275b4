use shrs_presence::standalone::builtin::{PresenceBuiltin, PresenceCommand};
use shrs_presence::standalone::state::PresenceState;

#[test]
fn new_standalone_state() {
    let s = PresenceState::new(77);
    assert!(!s.connected);
    assert_eq!(s.start, 77);
    assert_eq!(s.commands_used, 0);
    assert_eq!(s.working_dir, "");
}

#[test]
fn activity_shows_home_as_tilde() {
    let mut s = PresenceState::new(5);
    s.working_dir = "/home/me/src/shrs".to_string();
    let p = s.activity("editing", "/home/me");
    assert_eq!(p.details, "📁 ~/src/shrs");
    assert_eq!(p.state, "editing");
    assert_eq!(p.start, 5);
    assert_eq!(
        p.buttons,
        vec![("Shell Repo".to_string(), "https://github.com/nithinmuthukumar".to_string())]
    );
    assert_eq!(p.large_image, "shrs-1024x1024");
}

#[test]
fn activity_at_home_is_tilde_slash() {
    let mut s = PresenceState::new(5);
    s.working_dir = "/home/me".to_string();
    assert_eq!(s.activity("x", "/home/me").details, "📁 ~/");
}

#[test]
fn activity_outside_home_is_unchanged() {
    let mut s = PresenceState::new(5);
    s.working_dir = "/etc/nginx".to_string();
    assert_eq!(s.activity("x", "/home/me").details, "📁 /etc/nginx");
    s.working_dir = "/home/meadow".to_string();
    assert_eq!(s.activity("x", "/home/me").details, "📁 /home/meadow");
}

#[test]
fn strip_is_by_components() {
    let mut s = PresenceState::new(0);
    s.working_dir = "/a/b/c".to_string();
    assert_eq!(s.activity("x", "/a").details, "📁 ~/b/c");
    s.working_dir = "/ab/c".to_string();
    assert_eq!(s.activity("x", "/a").details, "📁 /ab/c");
    s.working_dir = "/a//b/".to_string();
    assert_eq!(s.activity("x", "/a/").details, "📁 ~/b");
}

#[test]
fn standalone_update_without_connection_is_quiet() {
    let mut s = PresenceState::new(5);
    assert_eq!(s.update_activity("x", "/home"), Ok(()));
    s.disconnect();
    assert!(!s.connected);
}

#[test]
fn builtin_lines() {
    let b = PresenceBuiltin {};
    assert_eq!(b.run(Some(PresenceCommand::Connect)), Some("Connected".to_string()));
    assert_eq!(b.run(Some(PresenceCommand::Disconnect)), Some("Disconnected".to_string()));
    assert_eq!(b.run(None), None);
}
