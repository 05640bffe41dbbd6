use asthobin::access_log::{access_log_line, is_save_request};

#[test]
fn saves_are_logged_only_when_asked() {
    assert!(is_save_request(true, "/new"));
    assert!(!is_save_request(false, "/new"));
    assert!(!is_save_request(true, "/new/"));
    assert!(!is_save_request(true, "/ABC"));
}

#[test]
fn log_lines() {
    assert_eq!(
        access_log_line(false, true, Some("ABCDEFGH23"), Some("10.0.0.1"), "http", "h", "/new").as_deref(),
        Some("Code saved: ID=ABCDEFGH23, IP=10.0.0.1")
    );
    assert_eq!(
        access_log_line(false, true, None, None, "http", "h", "/new").as_deref(),
        Some("Code saved: ID=unknown, IP=unknown")
    );
    assert_eq!(
        access_log_line(true, false, None, Some("::1"), "https", "paste.example", "/raw/X").as_deref(),
        Some("Code accessed: URL=https://paste.example/raw/X, IP=::1")
    );
}

#[test]
fn accesses_are_not_logged_unless_asked() {
    assert!(access_log_line(false, false, None, Some("::1"), "https", "paste.example", "/raw/X").is_none());
    assert!(access_log_line(true, true, Some("ID"), None, "http", "h", "/new").is_some());
}
