use shrs_presence::discord::PresenceError;
use shrs_presence::server::routes::{
    add_command, connect, disconnect, heartbeat, info, Heartbeat, Session, STATUS_BAD_REQUEST,
    STATUS_OK,
};
use shrs_presence::server::state::PresenceState;

const ID_A: &str = "936da01f-9abd-4d9d-80c7-02af85c822a8";
const ID_B: &str = "0123abcd-0000-4000-8000-00000000beef";

fn id_of(text: &str) -> u128 {
    uuid::Uuid::parse_str(text).unwrap().as_u128()
}

#[test]
fn new_state_is_empty() {
    let s = PresenceState::new();
    assert!(!s.connected);
    assert_eq!(s.start, 0);
    assert_eq!(s.commands_used, 0);
    assert!(s.sessions.is_empty());
    assert_eq!(s.last_command, "");
    assert_eq!(
        s.buttons,
        vec![(
            "Shell Repo".to_string(),
            "https://github.com/MrPicklePinosaur/shrs".to_string()
        )]
    );
}

#[test]
fn first_connect_sets_start() {
    let mut s = PresenceState::new();
    s.connect(7, 1000, 1_700_000_000_000);
    assert_eq!(s.start, 1_700_000_000_000);
    assert_eq!(s.sessions.get(&7), Some(&1000));
    s.connect(8, 2000, 1_800_000_000_000);
    assert_eq!(s.start, 1_700_000_000_000);
    assert_eq!(s.sessions.len(), 2);
}

#[test]
fn reconnect_refreshes_time() {
    let mut s = PresenceState::new();
    s.connect(7, 1000, 5);
    s.connect(7, 4000, 6);
    assert_eq!(s.sessions.len(), 1);
    assert_eq!(s.sessions.get(&7), Some(&4000));
    assert_eq!(s.start, 5);
}

#[test]
fn drop_keeps_young_sessions() {
    let mut s = PresenceState::new();
    s.connect(1, 0, 0);
    s.connect(2, 10_000, 0);
    s.connect(3, 25_000, 0);
    s.drop_dead_sessions(25_000);
    let mut left: Vec<u128> = s.sessions.keys().copied().collect();
    left.sort();
    assert_eq!(left, vec![2, 3]);
    assert_eq!(s.sessions.get(&2), Some(&10_000));
}

#[test]
fn drop_at_exact_timeout_forgets() {
    let mut s = PresenceState::new();
    s.connect(1, 100, 0);
    s.drop_dead_sessions(20_099);
    assert_eq!(s.sessions.len(), 1);
    s.drop_dead_sessions(20_100);
    assert!(s.sessions.is_empty());
}

#[test]
fn drop_is_idempotent() {
    let mut s = PresenceState::new();
    s.connect(1, 0, 0);
    s.connect(2, 30_000, 0);
    s.drop_dead_sessions(40_000);
    let once = s.sessions.clone();
    s.drop_dead_sessions(40_000);
    assert_eq!(s.sessions, once);
}

#[test]
fn fresh_session_survives_drop() {
    let mut s = PresenceState::new();
    s.connect(9, 123_456, 0);
    s.drop_dead_sessions(123_456);
    assert_eq!(s.sessions.get(&9), Some(&123_456));
}

#[test]
fn activity_describes_state() {
    let mut s = PresenceState::new();
    s.connect(1, 0, 42);
    s.connect(2, 0, 43);
    s.commands_used = 12;
    s.last_command = "ls -la".to_string();
    let p = s.activity();
    assert_eq!(p.state, "> ls -la");
    assert_eq!(p.details, "Sessions 2; Commands 12;");
    assert_eq!(p.start, 42);
    assert_eq!(p.large_image, "shrs-1024x1024");
    assert_eq!(p.buttons, s.buttons);
}

#[test]
fn activity_of_new_state() {
    let s = PresenceState::new();
    let p = s.activity();
    assert_eq!(p.state, "> ");
    assert_eq!(p.details, "Sessions 0; Commands 0;");
}

#[test]
fn activity_with_negative_count() {
    let mut s = PresenceState::new();
    s.commands_used = -3;
    assert_eq!(s.activity().details, "Sessions 0; Commands -3;");
}

#[test]
fn update_without_connection_is_quiet() {
    let mut s = PresenceState::new();
    s.connected = false;
    assert_eq!(s.update_activity(), Ok(()));
}

#[test]
fn connect_route_registers_session() {
    let mut s = PresenceState::new();
    s.connected = false;
    let body = Session { id: ID_A.to_string() };
    let r = connect(&mut s, &body, 500, 99);
    if !s.connected {
        assert_eq!(r, Ok(STATUS_OK));
    }
    assert_eq!(s.sessions.get(&id_of(ID_A)), Some(&500));
    assert_eq!(s.start, 99);
}

#[test]
fn connect_route_refuses_bad_id() {
    let mut s = PresenceState::new();
    let body = Session { id: "nope".to_string() };
    assert_eq!(connect(&mut s, &body, 500, 99), Ok(STATUS_BAD_REQUEST));
    assert!(s.sessions.is_empty());
    assert_eq!(s.start, 0);
}

#[test]
fn add_command_route_counts() {
    let mut s = PresenceState::new();
    s.connected = false;
    assert_eq!(add_command(&mut s, "cargo build".to_string()), Ok(STATUS_OK));
    assert_eq!(add_command(&mut s, "git status".to_string()), Ok(STATUS_OK));
    assert_eq!(s.commands_used, 2);
    assert_eq!(s.last_command, "git status");
}

#[test]
fn info_route_reports() {
    let mut s = PresenceState::new();
    s.connected = false;
    connect(&mut s, &Session { id: ID_A.to_string() }, 0, 5).ok();
    connect(&mut s, &Session { id: ID_B.to_string() }, 0, 6).ok();
    add_command(&mut s, "echo hi".to_string()).ok();
    let i = info(&s);
    assert_eq!(i.sessions, 2);
    assert_eq!(i.commands_used, 1);
    assert_eq!(i.last_command, "echo hi");
    assert_eq!(i.start, 5);
    assert_eq!(i.connected, s.connected);
}

#[test]
fn disconnect_route_clears_flag() {
    let mut s = PresenceState::new();
    s.connected = true;
    let r = disconnect(&mut s);
    assert!(!s.connected);
    assert!(r == Ok(STATUS_OK) || r == Err(PresenceError::Ipc));
}

#[test]
fn disconnect_without_socket_fails() {
    let mut s = PresenceState::new();
    assert_eq!(disconnect(&mut s), Err(PresenceError::Ipc));
    assert!(!s.connected);
}

#[test]
fn heartbeat_exits_without_sessions() {
    let mut s = PresenceState::new();
    assert_eq!(heartbeat(&mut s, 0), Ok(Heartbeat::Exit));
    s.connected = false;
    s.connect(1, 0, 0);
    s.connected = false;
    assert_eq!(heartbeat(&mut s, 19_999), Ok(Heartbeat::Continue));
    assert_eq!(heartbeat(&mut s, 20_000), Ok(Heartbeat::Exit));
}

#[test]
fn connect_route_accepts_other_uuid_forms() {
    let id = id_of(ID_A);
    for text in [
        "936DA01F-9ABD-4D9D-80C7-02AF85C822A8",
        "936da01f9abd4d9d80c702af85c822a8",
        "{936da01f-9abd-4d9d-80c7-02af85c822a8}",
        "urn:uuid:936da01f-9abd-4d9d-80c7-02af85c822a8",
    ] {
        let mut s = PresenceState::new();
        let r = connect(&mut s, &Session { id: text.to_string() }, 1, 2);
        assert!(r.is_ok());
        assert_eq!(s.sessions.get(&id), Some(&1));
    }
}

#[test]
fn connect_route_refuses_malformed_ids() {
    for text in ["", "936da01f-9abd-4d9d-80c7-02af85c822a", "936da01f_9abd_4d9d_80c7_02af85c822a8", "zzzzzzzz-9abd-4d9d-80c7-02af85c822a8"] {
        let mut s = PresenceState::new();
        assert_eq!(connect(&mut s, &Session { id: text.to_string() }, 1, 2), Ok(STATUS_BAD_REQUEST));
        assert!(s.sessions.is_empty());
    }
}

#[test]
fn plugin_announcement_registers_plugin_session() {
    let plugin = shrs_presence::plugin::PresenceState::new("http://127.0.0.1:3000".to_string());
    let body = match plugin.connect_request().body {
        shrs_presence::plugin::PostBody::Json(text) => text,
        shrs_presence::plugin::PostBody::Text(_) => panic!("connect body must be JSON"),
    };
    let value: serde_json::Value = serde_json::from_str(&body).unwrap();
    let id_text = value["id"].as_str().unwrap().to_string();
    let mut s = PresenceState::new();
    connect(&mut s, &Session { id: id_text }, 10, 20).ok();
    assert_eq!(s.sessions.get(&plugin.id()), Some(&10));
}

#[test]
fn drop_earlier_then_later_equals_later() {
    let mut a = PresenceState::new();
    let mut b = PresenceState::new();
    for (id, t) in [(1u128, 0u64), (2, 5_000), (3, 15_000), (4, 30_000)] {
        a.connect(id, t, 0);
        b.connect(id, t, 0);
    }
    a.drop_dead_sessions(22_000);
    a.drop_dead_sessions(34_000);
    b.drop_dead_sessions(34_000);
    assert_eq!(a.sessions, b.sessions);
    let mut left: Vec<u128> = b.sessions.keys().copied().collect();
    left.sort();
    assert_eq!(left, vec![3, 4]);
}

#[test]
fn connect_route_answers_ok_when_not_connected() {
    let mut s = PresenceState::new();
    let r = connect(&mut s, &Session { id: ID_B.to_string() }, 3, 4);
    if !s.connected {
        assert_eq!(r, Ok(STATUS_OK));
    }
    assert_eq!(s.sessions.get(&id_of(ID_B)), Some(&3));
}
