use asthobin::env::{exit_if_key_not_exist, exit_if_keys_not_exist, get_env_or_default, parse_env_or_default, parse_env_or_default_u32};

#[test]
fn unset_variables_take_their_default() {
    assert_eq!(get_env_or_default(None, "TLS13,TLS12"), "TLS13,TLS12");
    assert_eq!(get_env_or_default(Some("x".to_string()), "d"), "x");
    assert_eq!(get_env_or_default(Some(String::new()), "d"), "");
}

#[test]
fn numbers_are_parsed_or_defaulted() {
    assert_eq!(parse_env_or_default(Some("42"), 2), 42);
    assert_eq!(parse_env_or_default(Some("+7"), 2), 7);
    assert_eq!(parse_env_or_default(Some("007"), 2), 7);
    assert_eq!(parse_env_or_default(Some("-1"), 2), 2);
    assert_eq!(parse_env_or_default(Some("+"), 2), 2);
    assert_eq!(parse_env_or_default(Some(""), 2), 2);
    assert_eq!(parse_env_or_default(Some(" 1"), 2), 2);
    assert_eq!(parse_env_or_default(Some("18446744073709551615"), 2), u64::MAX);
    assert_eq!(parse_env_or_default(Some("18446744073709551616"), 2), 2);
    assert_eq!(parse_env_or_default(None, 604800), 604800);
    assert_eq!(parse_env_or_default_u32(Some("4294967295"), 4), u32::MAX);
    assert_eq!(parse_env_or_default_u32(Some("4294967296"), 4), 4);
    assert_eq!(parse_env_or_default_u32(Some("9"), 4), 9);
}

#[test]
fn missing_keys_stop_the_service() {
    assert!(exit_if_key_not_exist("BASE_URL", true).is_ok());
    assert_eq!(
        exit_if_key_not_exist("BASE_URL", false).unwrap_err(),
        "The key BASE_URL does not exist in the .env file."
    );
    assert!(exit_if_keys_not_exist(&["A", "B"], &[true, true]).is_ok());
    assert!(exit_if_keys_not_exist(&[], &[]).is_ok());
    assert_eq!(
        exit_if_keys_not_exist(&["A", "B", "C"], &[true, false, false]).unwrap_err(),
        "The key B does not exist in the .env file."
    );
}
