//! The service's error type, what each error reads as, and how a request that
//! failed with it is answered.

use vstd::prelude::*;
use crate::json::{failure_body, failure_json};

verus! {

/// `200 OK`.
pub const STATUS_OK: u16 = 200;
/// `302 Found`.
pub const STATUS_FOUND: u16 = 302;
/// `400 Bad Request`.
pub const STATUS_BAD_REQUEST: u16 = 400;
/// `404 Not Found`.
pub const STATUS_NOT_FOUND: u16 = 404;
/// `500 Internal Server Error`.
pub const STATUS_INTERNAL_SERVER_ERROR: u16 = 500;

/// A number that an HTTP status code can hold: three decimal digits, from 100 to 999.
pub open spec fn valid_status(code: u16) -> bool {
    100 <= code <= 999
}

/// What the `Display` of the HTTP status code `code` writes: the number and its
/// reason phrase.
pub uninterp spec fn status_text(code: u16) -> Seq<char>;

/// What `Debug` writes for a `str`: the text between double quotes, escaped.
pub uninterp spec fn debug_quoted(s: Seq<char>) -> Seq<char>;

/// `Display` of `actix_web::http::StatusCode` for the code `code` (built with
/// `StatusCode::from_u16`, which accepts every code from 100 to 999): the
/// decimal number, a space and the canonical reason phrase, or
/// `<unknown status code>` where the code has none. The result is named, not
/// spelled out.
#[verifier::external_body]
fn status_code_display(code: u16) -> (r: String)
    requires
        valid_status(code),
    ensures
        r@ == status_text(code),
{
    match actix_web::http::StatusCode::from_u16(code) {
        Ok(status) => status.to_string(),
        Err(_) => String::new(),
    }
}

/// `Debug` of a `str` from std, as `format!("{:?}", s)` writes it. The result
/// is named, not spelled out.
#[verifier::external_body]
fn str_debug(s: &str) -> (r: String)
    ensures
        r@ == debug_quoted(s@),
{
    format!("{:?}", s)
}

/// The view of an optional text.
pub open spec fn opt_text(o: Option<String>) -> Option<Seq<char>> {
    match o {
        Some(s) => Some(s@),
        None => None,
    }
}

/// What `Debug` writes for an optional text.
pub open spec fn option_debug(o: Option<Seq<char>>) -> Seq<char> {
    match o {
        Some(s) => "Some("@ + debug_quoted(s) + ")"@,
        None => "None"@,
    }
}

/// An error of the service. Errors raised by an outside library carry that
/// library's message; `Custom` carries a status code and the messages that
/// are logged and sent back.
#[derive(Debug)]
pub enum ApiError {
    Io(String),
    Syntect(String),
    Serde(String),
    Diesel(String),
    Bb8(String),
    Bb8Pool(String),
    Askama(String),
    Confik(String),
    ParseStringError(String),
    SystemTimeError(String),
    TryFromIntError(String),
    Custom { status_code: u16, log_message: Option<String>, http_message: Option<String> },
}

/// How a failed request is answered: its status code, what is logged (if
/// anything), and the JSON body (if any).
#[derive(Debug)]
pub struct ErrorReply {
    pub status_code: u16,
    pub log_message: Option<String>,
    pub body: Option<String>,
}

impl ApiError {
    /// Every status code the error holds is one an HTTP status can have.
    pub open spec fn wf(self) -> bool {
        match self {
            ApiError::Custom { status_code, .. } => valid_status(status_code),
            _ => true,
        }
    }

    /// The text that the error reads as.
    pub open spec fn text(self) -> Seq<char> {
        match self {
            ApiError::Io(m) => "I/O error: "@ + m@,
            ApiError::Syntect(m) => "Syntect error: "@ + m@,
            ApiError::Serde(m) => "Serde error: "@ + m@,
            ApiError::Diesel(m) => "Diesel error: "@ + m@,
            ApiError::Bb8(m) => "bb8 error: "@ + m@,
            ApiError::Bb8Pool(m) => "Creation pool error: "@ + m@,
            ApiError::Askama(m) => "Askama error: "@ + m@,
            ApiError::Confik(m) => "Configuration error: "@ + m@,
            ApiError::ParseStringError(m) => "String parsing error: "@ + m@,
            ApiError::SystemTimeError(m) => "SystemTimeError error: "@ + m@,
            ApiError::TryFromIntError(m) => "Integer conversion error: "@ + m@,
            ApiError::Custom { status_code, log_message, .. } => "Custom error: "@ + option_debug(
                opt_text(log_message),
            ) + " (code: "@ + status_text(status_code) + ")"@,
        }
    }

    /// The status a request that failed with this error is answered with.
    pub open spec fn reply_status(self) -> u16 {
        match self {
            ApiError::Custom { status_code, .. } => status_code,
            _ => STATUS_INTERNAL_SERVER_ERROR,
        }
    }

    /// What is logged when a request fails with this error.
    pub open spec fn reply_log(self) -> Option<Seq<char>> {
        match self {
            ApiError::Custom { log_message, .. } => opt_text(log_message),
            _ => Some(self.text()),
        }
    }

    /// The body sent back when a request fails with this error: the JSON
    /// failure object carrying the error's message, where it has one to send.
    pub open spec fn reply_body(self) -> Option<Seq<char>> {
        match self {
            ApiError::Custom { http_message, .. } => match http_message {
                Some(m) => Some(failure_body(m@)),
                None => None,
            },
            _ => None,
        }
    }

    /// An error of status 500 whose message is only logged.
    pub fn new_log_internal(log_message: String) -> (e: ApiError)
        ensures
            e == (ApiError::Custom {
                status_code: STATUS_INTERNAL_SERVER_ERROR,
                log_message: Some(log_message),
                http_message: None,
            }),
            e.wf(),
    {
        Self::new_log(STATUS_INTERNAL_SERVER_ERROR, log_message)
    }

    /// An error of the given status whose message is only logged.
    pub fn new_log(status_code: u16, log_message: String) -> (e: ApiError)
        requires
            valid_status(status_code),
        ensures
            e == (ApiError::Custom { status_code, log_message: Some(log_message), http_message: None }),
            e.wf(),
    {
        ApiError::Custom { status_code, log_message: Some(log_message), http_message: None }
    }

    /// An error of the given status whose message is sent back.
    pub fn new_message(status_code: u16, http_message: String) -> (e: ApiError)
        requires
            valid_status(status_code),
        ensures
            e == (ApiError::Custom { status_code, log_message: None, http_message: Some(http_message) }),
            e.wf(),
    {
        ApiError::Custom { status_code, log_message: None, http_message: Some(http_message) }
    }

    /// An error of the given status with a message to log and one to send back.
    pub fn new_all(status_code: u16, log_message: String, http_message: String) -> (e: ApiError)
        requires
            valid_status(status_code),
        ensures
            e == (ApiError::Custom {
                status_code,
                log_message: Some(log_message),
                http_message: Some(http_message),
            }),
            e.wf(),
    {
        ApiError::Custom {
            status_code,
            log_message: Some(log_message),
            http_message: Some(http_message),
        }
    }

    /// The text that the error reads as (its `Display`).
    pub fn message(&self) -> (r: String)
        requires
            self.wf(),
        ensures
            r@ == self.text(),
    {
        let (prefix, inner): (&str, &String) = match self {
            ApiError::Io(m) => ("I/O error: ", m),
            ApiError::Syntect(m) => ("Syntect error: ", m),
            ApiError::Serde(m) => ("Serde error: ", m),
            ApiError::Diesel(m) => ("Diesel error: ", m),
            ApiError::Bb8(m) => ("bb8 error: ", m),
            ApiError::Bb8Pool(m) => ("Creation pool error: ", m),
            ApiError::Askama(m) => ("Askama error: ", m),
            ApiError::Confik(m) => ("Configuration error: ", m),
            ApiError::ParseStringError(m) => ("String parsing error: ", m),
            ApiError::SystemTimeError(m) => ("SystemTimeError error: ", m),
            ApiError::TryFromIntError(m) => ("Integer conversion error: ", m),
            ApiError::Custom { status_code, log_message, .. } => {
                let mut r = String::from_str("Custom error: ");
                match log_message {
                    Some(m) => {
                        r.append("Some(");
                        let quoted = str_debug(m.as_str());
                        r.append(quoted.as_str());
                        r.append(")");
                    },
                    None => {
                        r.append("None");
                    },
                }
                r.append(" (code: ");
                let status = status_code_display(*status_code);
                r.append(status.as_str());
                r.append(")");
                return r;
            },
        };
        let mut r = String::from_str(prefix);
        r.append(inner.as_str());
        r
    }

    /// How a request that failed with this error is answered. A `Custom` error
    /// keeps its status, logs its log message and sends its message in a JSON
    /// body; any other error is a 500 that logs the error's text and sends no body.
    pub fn error_response(&self) -> (r: ErrorReply)
        requires
            self.wf(),
        ensures
            valid_status(r.status_code),
            r.status_code == self.reply_status(),
            opt_text(r.log_message) == self.reply_log(),
            opt_text(r.body) == self.reply_body(),
    {
        match self {
            ApiError::Custom { status_code, log_message, http_message } => {
                let log = match log_message {
                    Some(m) => Some(m.clone()),
                    None => None,
                };
                let body = match http_message {
                    Some(m) => Some(failure_json(m.as_str())),
                    None => None,
                };
                ErrorReply { status_code: *status_code, log_message: log, body }
            },
            _ => ErrorReply {
                status_code: STATUS_INTERNAL_SERVER_ERROR,
                log_message: Some(self.message()),
                body: None,
            },
        }
    }
}

/// Law: an error raised by an outside library is answered with status 500,
/// logs its text, and tells the client nothing; a `Custom` error logs and
/// sends exactly its own messages.
pub proof fn law_error_replies(e: ApiError)
    ensures
        !(e is Custom) ==> e.reply_status() == STATUS_INTERNAL_SERVER_ERROR && e.reply_log() == Some(
            e.text(),
        ) && e.reply_body() is None,
        e matches ApiError::Custom { log_message, http_message, .. } ==> e.reply_log() == opt_text(
            log_message,
        ) && (e.reply_body() is Some <==> http_message is Some),
{
}

} // verus!
