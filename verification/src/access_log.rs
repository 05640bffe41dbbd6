//! The line logged for each request: documents saved, or pages read.

use vstd::prelude::*;
use crate::text::text_equals;

verus! {

/// The path to which documents are uploaded.
pub const NEW_DOCUMENT_PATH: &'static str = "/new";

/// A request is logged as a save when saves are logged and it went to the
/// upload path.
pub fn is_save_request(log_on_save: bool, request_path: &str) -> (b: bool)
    ensures
        b == (log_on_save && request_path@ == NEW_DOCUMENT_PATH@),
{
    log_on_save && text_equals(request_path, NEW_DOCUMENT_PATH)
}

/// The text that stands for a value the request did not provide.
pub open spec fn or_unknown(v: Option<Seq<char>>) -> Seq<char> {
    match v {
        Some(s) => s,
        None => "unknown"@,
    }
}

/// The line logged for a request: for a save, the id the document got and
/// the client's address; else the URL read and the client's address.
pub open spec fn log_line(
    save_request: bool,
    saved_id: Option<Seq<char>>,
    client_ip: Option<Seq<char>>,
    scheme: Seq<char>,
    host: Seq<char>,
    path: Seq<char>,
) -> Seq<char> {
    if save_request {
        "Code saved: ID="@ + or_unknown(saved_id) + ", IP="@ + or_unknown(client_ip)
    } else {
        "Code accessed: URL="@ + scheme + "://"@ + host + path + ", IP="@ + or_unknown(client_ip)
    }
}

/// The line logged for a request once it has been answered, if any: a save
/// is logged when it is a save request; any other request is logged only
/// when accesses are logged (`log_on_access`).
pub fn access_log_line(
    log_on_access: bool,
    save_request: bool,
    saved_id: Option<&str>,
    client_ip: Option<&str>,
    scheme: &str,
    host: &str,
    path: &str,
) -> (r: Option<String>)
    ensures
        r.is_some() == (save_request || log_on_access),
        r.is_some() ==> r.unwrap()@ == log_line(
            save_request,
            match saved_id {
                Some(s) => Some(s@),
                None => None,
            },
            match client_ip {
                Some(s) => Some(s@),
                None => None,
            },
            scheme@,
            host@,
            path@,
        ),
{
    if !save_request && !log_on_access {
        return None;
    }
    let ip = match client_ip {
        Some(ip) => ip,
        None => "unknown",
    };
    if save_request {
        let id = match saved_id {
            Some(id) => id,
            None => "unknown",
        };
        let mut line = String::from_str("Code saved: ID=");
        line.append(id);
        line.append(", IP=");
        line.append(ip);
        Some(line)
    } else {
        let mut line = String::from_str("Code accessed: URL=");
        line.append(scheme);
        line.append("://");
        line.append(host);
        line.append(path);
        line.append(", IP=");
        line.append(ip);
        Some(line)
    }
}

} // verus!
