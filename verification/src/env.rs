//! Reading settings from the environment: defaults for unset variables,
//! numbers parsed from their text, and variables the service cannot run without.

use vstd::prelude::*;

verus! {

/// The value of a decimal numeral made of ASCII digits.
pub open spec fn digits_value(d: Seq<char>) -> int
    decreases d.len(),
{
    if d.len() == 0 {
        0
    } else {
        digits_value(d.drop_last()) * 10 + (d.last() as int - '0' as int)
    }
}

/// One or more ASCII digits.
pub open spec fn is_digits(d: Seq<char>) -> bool {
    d.len() > 0 && forall|i: int| 0 <= i < d.len() ==> '0' <= #[trigger] d[i] <= '9'
}

/// The number that `str::parse` reads from `s` for an unsigned type whose
/// largest value is `max`: an optional `+`, then one or more ASCII digits,
/// whose value must not exceed `max`.
pub open spec fn parse_unsigned(s: Seq<char>, max: int) -> Option<int> {
    let d = if s.len() > 0 && s[0] == '+' {
        s.drop_first()
    } else {
        s
    };
    if is_digits(d) && digits_value(d) <= max {
        Some(digits_value(d))
    } else {
        None
    }
}

/// `str::parse::<u64>` of std (`u64::from_str`): the number when the text is
/// an optional `+` and one or more ASCII digits whose value fits in a `u64`;
/// an error (empty, invalid digit, overflow) otherwise.
#[verifier::external_body]
fn parse_u64(s: &str) -> (r: Option<u64>)
    ensures
        r.is_some() == parse_unsigned(s@, u64::MAX as int).is_some(),
        r.is_some() ==> r.unwrap() == parse_unsigned(s@, u64::MAX as int).unwrap(),
{
    s.parse::<u64>().ok()
}

/// `str::parse::<u32>` of std (`u32::from_str`), with the same rules for a `u32`.
#[verifier::external_body]
fn parse_u32(s: &str) -> (r: Option<u32>)
    ensures
        r.is_some() == parse_unsigned(s@, u32::MAX as int).is_some(),
        r.is_some() ==> r.unwrap() == parse_unsigned(s@, u32::MAX as int).unwrap(),
{
    s.parse::<u32>().ok()
}

/// The value of a variable (`value`: its text, if it is set), or `default_value`.
pub fn get_env_or_default(value: Option<String>, default_value: &str) -> (r: String)
    ensures
        r@ == match value {
            Some(v) => v@,
            None => default_value@,
        },
{
    match value {
        Some(v) => v,
        None => String::from_str(default_value),
    }
}

/// The number a variable holds (`value`: its text, if it is set), or
/// `default_value` when it is unset or not a number.
pub fn parse_env_or_default(value: Option<&str>, default_value: u64) -> (r: u64)
    ensures
        r == match value {
            Some(v) => match parse_unsigned(v@, u64::MAX as int) {
                Some(n) => n,
                None => default_value as int,
            },
            None => default_value as int,
        },
{
    match value {
        Some(v) => match parse_u64(v) {
            Some(n) => n,
            None => default_value,
        },
        None => default_value,
    }
}

/// As `parse_env_or_default`, for a variable that holds a `u32`.
pub fn parse_env_or_default_u32(value: Option<&str>, default_value: u32) -> (r: u32)
    ensures
        r == match value {
            Some(v) => match parse_unsigned(v@, u32::MAX as int) {
                Some(n) => n,
                None => default_value as int,
            },
            None => default_value as int,
        },
{
    match value {
        Some(v) => match parse_u32(v) {
            Some(n) => n,
            None => default_value,
        },
        None => default_value,
    }
}

/// The message logged before the service stops for want of the variable `key`.
pub open spec fn missing_key_message(key: Seq<char>) -> Seq<char> {
    "The key "@ + key + " does not exist in the .env file."@
}

/// Whether the service may go on given whether the variable `key` is set
/// (`is_set`): when it is not, the message to log before stopping.
pub fn exit_if_key_not_exist(key: &str, is_set: bool) -> (r: Result<(), String>)
    ensures
        is_set ==> r is Ok,
        !is_set ==> (r matches Err(m) && m@ == missing_key_message(key@)),
{
    if is_set {
        Ok(())
    } else {
        let mut m = String::from_str("The key ");
        m.append(key);
        m.append(" does not exist in the .env file.");
        Err(m)
    }
}

/// Whether the service may go on given which of the variables `keys` are set
/// (`is_set[i]` for `keys[i]`): it stops at the first one unset, with the
/// message to log.
pub fn exit_if_keys_not_exist(keys: &[&str], is_set: &[bool]) -> (r: Result<(), String>)
    requires
        keys@.len() == is_set@.len(),
    ensures
        (forall|i: int| 0 <= i < is_set@.len() ==> #[trigger] is_set@[i]) ==> r is Ok,
        r matches Err(m) ==> exists|i: int|
            0 <= i < keys@.len() && !is_set@[i] && (forall|k: int| 0 <= k < i ==> #[trigger] is_set@[k])
                && m@ == missing_key_message(keys@[i]@),
        r is Ok ==> forall|i: int| 0 <= i < is_set@.len() ==> #[trigger] is_set@[i],
{
    let mut i: usize = 0;
    while i < keys.len()
        invariant
            keys@.len() == is_set@.len(),
            i <= keys@.len(),
            forall|k: int| 0 <= k < i ==> #[trigger] is_set@[k],
        decreases keys.len() - i,
    {
        let r = exit_if_key_not_exist(keys[i], is_set[i]);
        if r.is_err() {
            return r;
        }
        i = i + 1;
    }
    Ok(())
}

} // verus!
