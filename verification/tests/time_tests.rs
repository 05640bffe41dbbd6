use asthobin::error::ApiError;
use asthobin::time::{timestamp_from_clock, timestamp_from_secs, unix_timestamp};

#[test]
fn seconds_that_fit_are_kept() {
    assert!(matches!(timestamp_from_secs(0), Ok(0)));
    assert!(matches!(timestamp_from_secs(1_700_000_000), Ok(1_700_000_000)));
    assert!(matches!(timestamp_from_secs(i64::MAX as u64), Ok(i64::MAX)));
}

#[test]
fn seconds_beyond_i64_are_a_conversion_error() {
    assert!(matches!(timestamp_from_secs(i64::MAX as u64 + 1), Err(ApiError::TryFromIntError(_))));
    assert!(matches!(timestamp_from_secs(u64::MAX), Err(ApiError::TryFromIntError(_))));
}

#[test]
fn current_time_is_after_2020() {
    let now = unix_timestamp().unwrap();
    assert!(now > 1_577_836_800);
}

#[test]
fn clock_readings_become_timestamps_or_internal_errors() {
    assert!(matches!(timestamp_from_clock(Ok(1_700_000_000)), Ok(1_700_000_000)));
    assert!(matches!(timestamp_from_clock(Ok(u64::MAX)), Err(ApiError::TryFromIntError(_))));
    match timestamp_from_clock(Err("second time provided was later than self".to_string())) {
        Err(ApiError::Custom { status_code, log_message, http_message }) => {
            assert_eq!(status_code, 500);
            assert_eq!(log_message.as_deref(), Some("second time provided was later than self"));
            assert!(http_message.is_none());
        }
        other => panic!("unexpected {other:?}"),
    }
}
