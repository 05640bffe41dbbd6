//! JSON bodies of the service's replies. The escaping of text inside a JSON
//! string is serde_json's; the shape of each body is this library's.

use vstd::prelude::*;

verus! {

#[verifier::external_type_specification]
#[verifier::external_body]
pub struct ExSerdeJsonError(serde_json::Error);

/// The lower-case hexadecimal digit of `d` (`0 <= d < 16`).
pub open spec fn hex_digit(d: int) -> char {
    if d < 10 {
        (('0' as int) + d) as char
    } else {
        (('a' as int) + d - 10) as char
    }
}

/// How serde_json writes one character inside a JSON string.
pub open spec fn json_escape_char(c: char) -> Seq<char> {
    let u = c as int;
    if c == '"' {
        seq!['\\', '"']
    } else if c == '\\' {
        seq!['\\', '\\']
    } else if u == 0x08 {
        seq!['\\', 'b']
    } else if u == 0x09 {
        seq!['\\', 't']
    } else if u == 0x0A {
        seq!['\\', 'n']
    } else if u == 0x0C {
        seq!['\\', 'f']
    } else if u == 0x0D {
        seq!['\\', 'r']
    } else if u < 0x20 {
        seq!['\\', 'u', '0', '0', hex_digit(u / 16), hex_digit(u % 16)]
    } else {
        seq![c]
    }
}

/// The escaped contents of a JSON string holding `s`.
pub open spec fn json_escape(s: Seq<char>) -> Seq<char>
    decreases s.len(),
{
    if s.len() == 0 {
        Seq::empty()
    } else {
        json_escape_char(s[0]) + json_escape(s.drop_first())
    }
}

/// The JSON string literal that holds `s`, quotes included.
pub open spec fn json_string_literal(s: Seq<char>) -> Seq<char> {
    seq!['"'] + json_escape(s) + seq!['"']
}

/// `serde_json::to_string` applied to a `&str`. The source writes the text
/// between two quotes, escaping `"` and `\` with a backslash, the control
/// characters backspace, tab, line feed, form feed and carriage return as
/// `\b \t \n \f \r`, every other character below U+0020 as `\u00` and two
/// lower-case hex digits, and copying every other character. Serialising a
/// `str` into memory cannot fail: the writer is a `Vec<u8>`.
#[verifier::external_body]
fn serde_json_to_string(s: &str) -> (r: Result<String, serde_json::Error>)
    ensures
        r.is_ok(),
        r.unwrap()@ == json_string_literal(s@),
{
    serde_json::to_string(s)
}

/// The JSON string literal that holds `s`.
pub fn json_string(s: &str) -> (r: String)
    ensures
        r@ == json_string_literal(s@),
{
    match serde_json_to_string(s) {
        Ok(t) => t,
        Err(_) => String::new(),
    }
}

/// The compact JSON text of the object `{"message": message, "status": "failed"}`,
/// keys in sorted order, as a failed request is answered.
pub open spec fn failure_body(message: Seq<char>) -> Seq<char> {
    "{\"message\":"@ + json_string_literal(message) + ",\"status\":\"failed\"}"@
}

/// The compact JSON text of the object `{"key": key, "status": "success"}`,
/// keys in sorted order, as a saved document is answered.
pub open spec fn success_body(key: Seq<char>) -> Seq<char> {
    "{\"key\":"@ + json_string_literal(key) + ",\"status\":\"success\"}"@
}

/// The body of the reply to a failed request that carries `message`.
pub fn failure_json(message: &str) -> (r: String)
    ensures
        r@ == failure_body(message@),
{
    let quoted = json_string(message);
    let mut body = String::from_str("{\"message\":");
    body.append(quoted.as_str());
    body.append(",\"status\":\"failed\"}");
    body
}

/// The body of the reply to a saved document stored under `key`.
pub fn success_json(key: &str) -> (r: String)
    ensures
        r@ == success_body(key@),
{
    let quoted = json_string(key);
    let mut body = String::from_str("{\"key\":");
    body.append(quoted.as_str());
    body.append(",\"status\":\"success\"}");
    body
}

} // verus!
