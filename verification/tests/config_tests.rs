use asthobin::config::{Config, CorsOrigin, UrlFile};
use asthobin::error::ApiError;

fn logged(e: ApiError) -> String {
    match e {
        ApiError::Custom { status_code: 500, log_message: Some(m), http_message: None } => m,
        other => panic!("unexpected {other:?}"),
    }
}

#[test]
fn defaults_when_nothing_is_set() {
    let c = Config::default();
    assert_eq!(c.host, "127.0.0.1");
    assert_eq!(c.port, 8080);
    assert_eq!(c.database_url, "");
    assert!(c.database_url_file.is_none());
    assert_eq!(c.cors_origin, "");
    assert!(!c.log_on_access);
    assert!(!c.log_on_save);
    assert_eq!(c.delete_time, 604800);
    assert_eq!(c.ratelimit_between_save, 2);
    assert_eq!(c.ratelimit_allowed_before, 4);
    assert!(c.pool_max_connections.is_none());
    assert!(c.pool_min_reserved_connections.is_none());
    assert!(c.pool_connection_timeout.is_none());
}

#[test]
fn database_url_from_a_file_is_trimmed() {
    let mut c = Config::default();
    c.resolve_database_url(Some(UrlFile::Contents("  postgres://db/x \n".to_string()))).unwrap();
    assert_eq!(c.database_url, "postgres://db/x");
}

#[test]
fn database_url_file_problems() {
    let mut c = Config::default();
    c.database_url = "postgres://kept".to_string();
    let e = c.resolve_database_url(Some(UrlFile::Missing)).unwrap_err();
    assert_eq!(logged(e), "The file provided through the 'DATABASE_URL_FILE' variable does not exist.");
    let e = c.resolve_database_url(Some(UrlFile::Contents(" \n\t".to_string()))).unwrap_err();
    assert_eq!(logged(e), "The file provided through the 'DATABASE_URL_FILE' variable is empty.");
    assert_eq!(c.database_url, "postgres://kept");
}

#[test]
fn database_url_from_the_variable() {
    let mut c = Config::default();
    let e = c.resolve_database_url(None).unwrap_err();
    assert_eq!(logged(e), "Neither the 'DATABASE_URL' variable nor the 'DATABASE_URL_FILE' variable is defined.");
    c.database_url = "postgres://a".to_string();
    c.resolve_database_url(None).unwrap();
    assert_eq!(c.database_url, "postgres://a");
}

#[test]
fn cors_origins() {
    let mut c = Config::default();
    assert!(c.cors_disabled());
    assert!(matches!(c.cors_policy(), CorsOrigin::Any));
    c.cors_origin = "*".to_string();
    assert!(!c.cors_disabled());
    assert!(matches!(c.cors_policy(), CorsOrigin::Any));
    c.cors_origin = "https://paste.example".to_string();
    match c.cors_policy() {
        CorsOrigin::Only(o) => assert_eq!(o, "https://paste.example"),
        other => panic!("unexpected {other:?}"),
    }
}

#[test]
fn deletion_cutoff_is_a_week_back_by_default() {
    let c = Config::default();
    assert_eq!(c.deletion_cutoff(1_000_000), 1_000_000 - 604800);
}
