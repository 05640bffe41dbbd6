//! The service's settings, the values they take when unset, and the checks
//! made on them at start-up.

use vstd::prelude::*;
use crate::error::{ApiError, STATUS_INTERNAL_SERVER_ERROR};
use crate::text::{text_equals, trim, trim_text};

verus! {

/// The service's settings. Each one is read from the environment variable of
/// the same name in upper case; an unset one takes its default.
#[derive(Debug, PartialEq)]
pub struct Config {
    pub host: String,
    pub port: u16,
    pub database_url: String,
    pub database_url_file: Option<String>,
    pub cors_origin: String,
    pub log_on_access: bool,
    pub log_on_save: bool,
    pub delete_time: i64,
    pub ratelimit_between_save: u64,
    pub ratelimit_allowed_before: u32,
    pub pool_max_connections: Option<u32>,
    pub pool_min_reserved_connections: Option<u32>,
    pub pool_connection_timeout: Option<u64>,
}

/// Seconds a document is kept before the deletion task removes it: one week.
pub const DEFAULT_DELETE_TIME: i64 = 604800;

impl Default for Config {
    /// The settings when no variable is set.
    fn default() -> (c: Config)
        ensures
            c.host@ == "127.0.0.1"@,
            c.port == 8080,
            c.database_url@ == ""@,
            c.database_url_file is None,
            c.cors_origin@ == ""@,
            !c.log_on_access,
            !c.log_on_save,
            c.delete_time == DEFAULT_DELETE_TIME,
            c.ratelimit_between_save == 2,
            c.ratelimit_allowed_before == 4,
            c.pool_max_connections is None,
            c.pool_min_reserved_connections is None,
            c.pool_connection_timeout is None,
    {
        Config {
            host: String::from_str("127.0.0.1"),
            port: 8080,
            database_url: String::from_str(""),
            database_url_file: None,
            cors_origin: String::from_str(""),
            log_on_access: false,
            log_on_save: false,
            delete_time: DEFAULT_DELETE_TIME,
            ratelimit_between_save: 2,
            ratelimit_allowed_before: 4,
            pool_max_connections: None,
            pool_min_reserved_connections: None,
            pool_connection_timeout: None,
        }
    }
}

/// What was found at the path given by `DATABASE_URL_FILE`.
#[derive(Debug)]
pub enum UrlFile {
    /// Nothing exists at the path.
    Missing,
    /// The file's contents.
    Contents(String),
}

/// The message logged when the database URL file does not exist.
pub const URL_FILE_MISSING: &'static str = "The file provided through the 'DATABASE_URL_FILE' variable does not exist.";

/// The message logged when the database URL file holds only white space.
pub const URL_FILE_EMPTY: &'static str = "The file provided through the 'DATABASE_URL_FILE' variable is empty.";

/// The message logged when no database URL is given at all.
pub const NO_DATABASE_URL: &'static str = "Neither the 'DATABASE_URL' variable nor the 'DATABASE_URL_FILE' variable is defined.";

/// An internal error that only logs `message`.
pub open spec fn is_internal_log(e: ApiError, message: Seq<char>) -> bool {
    e matches ApiError::Custom { status_code, log_message: Some(m), http_message: None }
        && status_code == STATUS_INTERNAL_SERVER_ERROR && m@ == message
}

/// How cross-origin requests are answered.
#[derive(Debug)]
pub enum CorsOrigin {
    /// From any origin.
    Any,
    /// From this origin only.
    Only(String),
}

impl Config {
    /// Settles the database URL: taken from the file named by
    /// `DATABASE_URL_FILE` when that is set (`url_file` is what was found
    /// there), trimmed, else from `DATABASE_URL`. A missing or blank file, or no
    /// URL at all, is an internal error; the settings are then unchanged.
    pub fn resolve_database_url(&mut self, url_file: Option<UrlFile>) -> (r: Result<(), ApiError>)
        ensures
            match url_file {
                Some(UrlFile::Missing) => r matches Err(e) && is_internal_log(e, URL_FILE_MISSING@),
                Some(UrlFile::Contents(c)) => if trim(c@).len() == 0 {
                    r matches Err(e) && is_internal_log(e, URL_FILE_EMPTY@)
                } else {
                    r is Ok && final(self).database_url@ == trim(c@)
                },
                None => if old(self).database_url@.len() == 0 {
                    r matches Err(e) && is_internal_log(e, NO_DATABASE_URL@)
                } else {
                    r is Ok && final(self).database_url@ == old(self).database_url@
                },
            },
            r is Err ==> final(self).database_url == old(self).database_url,
            final(self).host == old(self).host,
            final(self).port == old(self).port,
            final(self).database_url_file == old(self).database_url_file,
            final(self).cors_origin == old(self).cors_origin,
            final(self).log_on_access == old(self).log_on_access,
            final(self).log_on_save == old(self).log_on_save,
            final(self).delete_time == old(self).delete_time,
            final(self).ratelimit_between_save == old(self).ratelimit_between_save,
            final(self).ratelimit_allowed_before == old(self).ratelimit_allowed_before,
            final(self).pool_max_connections == old(self).pool_max_connections,
            final(self).pool_min_reserved_connections == old(self).pool_min_reserved_connections,
            final(self).pool_connection_timeout == old(self).pool_connection_timeout,
    {
        match url_file {
            Some(UrlFile::Missing) => Err(ApiError::new_log_internal(String::from_str(URL_FILE_MISSING))),
            Some(UrlFile::Contents(contents)) => {
                let trimmed = trim_text(contents.as_str());
                if trimmed.as_str().is_empty() {
                    return Err(ApiError::new_log_internal(String::from_str(URL_FILE_EMPTY)));
                }
                self.database_url = trimmed;
                Ok(())
            },
            None => {
                if self.database_url.as_str().is_empty() {
                    return Err(ApiError::new_log_internal(String::from_str(NO_DATABASE_URL)));
                }
                Ok(())
            },
        }
    }

    /// Whether cross-origin checks are off for want of an origin, which is
    /// warned about at start-up.
    pub fn cors_disabled(&self) -> (b: bool)
        ensures
            b == (self.cors_origin@.len() == 0),
    {
        self.cors_origin.as_str().is_empty()
    }

    /// The origins allowed: any, when the origin is unset or `*`; else that one.
    pub fn cors_policy(&self) -> (r: CorsOrigin)
        ensures
            (self.cors_origin@.len() == 0 || self.cors_origin@ == "*"@) ==> r is Any,
            !(self.cors_origin@.len() == 0 || self.cors_origin@ == "*"@) ==> (r matches CorsOrigin::Only(
                o,
            ) && o@ == self.cors_origin@),
    {
        if self.cors_origin.as_str().is_empty() || text_equals(self.cors_origin.as_str(), "*") {
            CorsOrigin::Any
        } else {
            CorsOrigin::Only(self.cors_origin.clone())
        }
    }

    /// The time before which documents are deleted, when it is `now`.
    pub fn deletion_cutoff(&self, now: i64) -> (r: i64)
        requires
            i64::MIN <= now - self.delete_time <= i64::MAX,
        ensures
            r == now - self.delete_time,
    {
        now - self.delete_time
    }
}

} // verus!
