use asthobin::error::{ApiError, STATUS_BAD_REQUEST, STATUS_INTERNAL_SERVER_ERROR};

#[test]
fn builders_fill_the_custom_variant() {
    match ApiError::new_log_internal("disk".to_string()) {
        ApiError::Custom { status_code, log_message, http_message } => {
            assert_eq!(status_code, 500);
            assert_eq!(log_message.as_deref(), Some("disk"));
            assert!(http_message.is_none());
        }
        other => panic!("unexpected {other:?}"),
    }
    match ApiError::new_message(STATUS_BAD_REQUEST, "bad".to_string()) {
        ApiError::Custom { status_code, log_message, http_message } => {
            assert_eq!(status_code, 400);
            assert!(log_message.is_none());
            assert_eq!(http_message.as_deref(), Some("bad"));
        }
        other => panic!("unexpected {other:?}"),
    }
    match ApiError::new_all(404, "log".to_string(), "http".to_string()) {
        ApiError::Custom { status_code, log_message, http_message } => {
            assert_eq!(status_code, 404);
            assert_eq!(log_message.as_deref(), Some("log"));
            assert_eq!(http_message.as_deref(), Some("http"));
        }
        other => panic!("unexpected {other:?}"),
    }
    assert!(matches!(
        ApiError::new_log(503, "x".to_string()),
        ApiError::Custom { status_code: 503, http_message: None, .. }
    ));
}

#[test]
fn messages_of_each_variant() {
    assert_eq!(ApiError::Io("gone".into()).message(), "I/O error: gone");
    assert_eq!(ApiError::Syntect("s".into()).message(), "Syntect error: s");
    assert_eq!(ApiError::Serde("j".into()).message(), "Serde error: j");
    assert_eq!(ApiError::Diesel("d".into()).message(), "Diesel error: d");
    assert_eq!(ApiError::Bb8("b".into()).message(), "bb8 error: b");
    assert_eq!(ApiError::Bb8Pool("p".into()).message(), "Creation pool error: p");
    assert_eq!(ApiError::Askama("a".into()).message(), "Askama error: a");
    assert_eq!(ApiError::Confik("c".into()).message(), "Configuration error: c");
    assert_eq!(ApiError::ParseStringError("u".into()).message(), "String parsing error: u");
    assert_eq!(ApiError::SystemTimeError("t".into()).message(), "SystemTimeError error: t");
    assert_eq!(ApiError::TryFromIntError("i".into()).message(), "Integer conversion error: i");
}

#[test]
fn custom_message_reads_like_its_debug_and_status() {
    assert_eq!(
        ApiError::new_log_internal("bad \"clock\"".to_string()).message(),
        "Custom error: Some(\"bad \\\"clock\\\"\") (code: 500 Internal Server Error)"
    );
    assert_eq!(
        ApiError::new_message(400, "x".to_string()).message(),
        "Custom error: None (code: 400 Bad Request)"
    );
    assert_eq!(
        ApiError::new_message(599, "x".to_string()).message(),
        "Custom error: None (code: 599 <unknown status code>)"
    );
}

#[test]
fn custom_errors_answer_with_their_status_and_json_message() {
    let reply = ApiError::new_message(STATUS_BAD_REQUEST, "This file is empty.".to_string()).error_response();
    assert_eq!(reply.status_code, 400);
    assert!(reply.log_message.is_none());
    assert_eq!(
        reply.body.as_deref(),
        Some("{\"message\":\"This file is empty.\",\"status\":\"failed\"}")
    );
    let reply = ApiError::new_log_internal("secret".to_string()).error_response();
    assert_eq!(reply.status_code, 500);
    assert_eq!(reply.log_message.as_deref(), Some("secret"));
    assert!(reply.body.is_none());
}

#[test]
fn other_errors_are_internal_and_only_logged() {
    let reply = ApiError::Diesel("connection refused".into()).error_response();
    assert_eq!(reply.status_code, STATUS_INTERNAL_SERVER_ERROR);
    assert_eq!(reply.log_message.as_deref(), Some("Diesel error: connection refused"));
    assert!(reply.body.is_none());
}
