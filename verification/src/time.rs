//! The current time, as the whole number of seconds since the Unix epoch.

use vstd::prelude::*;
use std::time::{Duration, SystemTime, SystemTimeError};
use crate::error::{ApiError, STATUS_INTERNAL_SERVER_ERROR};

verus! {

#[verifier::external_type_specification]
#[verifier::external_body]
pub struct ExSystemTime(SystemTime);

#[verifier::external_type_specification]
#[verifier::external_body]
pub struct ExSystemTimeError(SystemTimeError);

/// `SystemTime::now` of std. The clock's reading is not stated.
#[verifier::external_body]
fn system_time_now() -> SystemTime {
    SystemTime::now()
}

/// `SystemTime::duration_since` of std, measured from `UNIX_EPOCH`. It fails
/// when the time lies before the epoch; which outcome comes is not stated,
/// since it rests on the clock.
#[verifier::external_body]
fn duration_since_unix_epoch(t: &SystemTime) -> Result<Duration, SystemTimeError> {
    t.duration_since(std::time::UNIX_EPOCH)
}

/// `Duration::as_secs` of std: the whole seconds of a duration, whose value
/// the library does not see.
#[verifier::external_body]
fn duration_whole_secs(d: &Duration) -> u64 {
    d.as_secs()
}

/// The `Display` text of a `SystemTimeError` of std; not stated.
#[verifier::external_body]
fn system_time_error_text(e: &SystemTimeError) -> String {
    e.to_string()
}

/// `i64::try_from` on a `u64` of std: the same number when `i64` can hold
/// it, an error otherwise.
#[verifier::external_body]
fn i64_try_from_u64(x: u64) -> (r: Result<i64, std::num::TryFromIntError>)
    ensures
        x <= i64::MAX ==> r.is_ok() && r.unwrap() == x,
        x > i64::MAX ==> r.is_err(),
{
    i64::try_from(x)
}

/// `secs` as a signed timestamp: `secs` itself when `i64` can hold it, and an
/// integer-conversion error otherwise.
pub fn timestamp_from_secs(secs: u64) -> (r: Result<i64, ApiError>)
    ensures
        secs <= i64::MAX ==> r == Ok::<i64, ApiError>(secs as i64),
        secs > i64::MAX ==> r matches Err(ApiError::TryFromIntError(_)),
{
    match i64_try_from_u64(secs) {
        Ok(t) => Ok(t),
        Err(e) => Err(ApiError::TryFromIntError(e.to_string())),
    }
}

/// What the service makes of a reading of the clock: `Ok(secs)`, the whole
/// seconds since the Unix epoch, becomes that timestamp (or a conversion error
/// beyond `i64`); `Err(m)`, a clock set before the epoch with the clock's
/// message `m`, becomes an internal error that logs `m`.
pub fn timestamp_from_clock(reading: Result<u64, String>) -> (r: Result<i64, ApiError>)
    ensures
        reading matches Ok(secs) ==> (secs <= i64::MAX ==> r == Ok::<i64, ApiError>(secs as i64)),
        reading matches Ok(secs) ==> (secs > i64::MAX ==> r matches Err(ApiError::TryFromIntError(_))),
        reading matches Err(m) ==> (r matches Err(ApiError::Custom { status_code, log_message: Some(l), http_message: None })
            && status_code == STATUS_INTERNAL_SERVER_ERROR && l@ == m@),
        r matches Err(e) ==> e.wf(),
{
    match reading {
        Ok(secs) => timestamp_from_secs(secs),
        Err(m) => Err(ApiError::new_log_internal(m)),
    }
}

/// The current time in whole seconds since the Unix epoch. A clock set before
/// the epoch gives an internal error whose message is logged.
pub fn unix_timestamp() -> (r: Result<i64, ApiError>)
    ensures
        r matches Ok(t) ==> t >= 0,
        r matches Err(e) ==> e.wf() && (e is TryFromIntError || (e matches ApiError::Custom {
            status_code,
            log_message: Some(_),
            http_message: None,
        } && status_code == STATUS_INTERNAL_SERVER_ERROR)),
{
    let now = system_time_now();
    let reading = match duration_since_unix_epoch(&now) {
        Ok(d) => Ok(duration_whole_secs(&d)),
        Err(e) => Err(system_time_error_text(&e)),
    };
    timestamp_from_clock(reading)
}

} // verus!
