//! Reading the system clock.
//!
//! Nothing is known of what the clock says, so nothing is promised of a
//! reading. What is done with a reading is stated in `timestamp_of`.

use vstd::prelude::*;
use std::time::{Duration, SystemTime, SystemTimeError, UNIX_EPOCH};

verus! {

/// A point in time as the system clock gives it (`std::time::SystemTime`).
#[verifier::external_type_specification]
#[verifier::external_body]
pub struct ExSystemTime(SystemTime);

/// The error of a clock that stands before the Unix epoch
/// (`std::time::SystemTimeError`).
#[verifier::external_type_specification]
#[verifier::external_body]
pub struct ExSystemTimeError(SystemTimeError);

/// Calls `SystemTime::now`. The result is whatever the clock says.
#[verifier::external_body]
fn system_time_now() -> SystemTime {
    SystemTime::now()
}

/// Calls `SystemTime::duration_since` with the Unix epoch. The result is the
/// time elapsed since the epoch, or the error of a moment before it; which
/// of the two is not stated.
#[verifier::external_body]
fn since_unix_epoch(moment: &SystemTime) -> Result<Duration, SystemTimeError> {
    moment.duration_since(UNIX_EPOCH)
}

/// Calls `Duration::as_secs`: the whole seconds of a span of time.
#[verifier::external_body]
fn whole_seconds(span: &Duration) -> u64 {
    span.as_secs()
}

/// The Unix timestamp for a number of seconds since the epoch: the number
/// itself, but a number beyond `i64::MAX` wraps around.
pub open spec fn wrapped(seconds: u64) -> int {
    if seconds <= i64::MAX {
        seconds as int
    } else {
        seconds - 0x1_0000_0000_0000_0000
    }
}

/// Computes the Unix timestamp for a number of seconds since the epoch.
pub fn timestamp_of(seconds: u64) -> (timestamp: i64)
    ensures
        timestamp == wrapped(seconds),
{
    if seconds <= 0x7fff_ffff_ffff_ffff {
        seconds as i64
    } else {
        let below: u64 = seconds - 0x8000_0000_0000_0000;
        (below as i64) + i64::MIN
    }
}

/// Reads the clock: the seconds since the Unix epoch, or the clock's own
/// complaint if it stands before the epoch.
pub fn seconds_since_epoch() -> Result<u64, String> {
    let now = system_time_now();
    match since_unix_epoch(&now) {
        Ok(span) => Ok(whole_seconds(&span)),
        Err(error) => Err(error.to_string()),
    }
}

} // verus!
