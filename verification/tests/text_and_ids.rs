use shrs_presence::text::{decimal_string, join_path, signed_decimal_string};

#[test]
fn decimal_matches_display() {
    for n in [0u64, 7, 9, 10, 42, 100, 999, 1000, 65535, u64::MAX] {
        assert_eq!(decimal_string(n), n.to_string());
    }
}

#[test]
fn signed_decimal_matches_display() {
    for i in [0i64, 1, -1, 9, -10, 123456, -987654, i64::MAX, i64::MIN] {
        assert_eq!(signed_decimal_string(i), i.to_string());
    }
}

#[test]
fn join_adds_separator() {
    assert_eq!(join_path("/home/u", ".cargo/bin/x"), "/home/u/.cargo/bin/x");
}

#[test]
fn join_keeps_trailing_separator() {
    assert_eq!(join_path("/home/u/", "presence"), "/home/u/presence");
}

#[test]
fn join_onto_empty_base() {
    assert_eq!(join_path("", "presence"), "presence");
}

#[test]
fn join_absolute_replaces() {
    assert_eq!(join_path("/home/u", "/etc"), "/etc");
}

#[test]
fn join_empty_rest_ends_in_separator() {
    assert_eq!(join_path("~", ""), "~/");
    assert_eq!(
        join_path("~", "").as_str(),
        std::path::PathBuf::from("~").join("").to_string_lossy()
    );
}

