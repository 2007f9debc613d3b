//! The wall clock, in whole seconds since the Unix epoch.

use std::time::Duration;
use std::time::SystemTime;
use std::time::SystemTimeError;
use std::time::UNIX_EPOCH;
use vstd::prelude::*;

verus! {

/// `std::time::SystemTime`, an instant of the system clock, carried as it
/// is.
#[verifier::external_type_specification]
#[verifier::external_body]
pub struct ExSystemTime(SystemTime);

/// `std::time::SystemTimeError`, the error of a clock that stands before
/// the instant it is compared with, carried as it is.
#[verifier::external_type_specification]
#[verifier::external_body]
pub struct ExSystemTimeError(SystemTimeError);

/// `SystemTime::now` reads the system clock; nothing is claimed of the
/// instant it returns.
pub assume_specification[ SystemTime::now ]() -> (t: SystemTime)
;

/// Calls `SystemTime::duration_since` with `UNIX_EPOCH`: the time elapsed
/// since the epoch, or an error for an instant before it. Nothing is claimed
/// of either.
#[verifier::external_body]
fn since_epoch(t: &SystemTime) -> (r: Result<Duration, SystemTimeError>) {
    t.duration_since(UNIX_EPOCH)
}

/// `Duration::as_secs` gives the whole seconds of a duration; nothing is
/// claimed of the number.
pub assume_specification[ Duration::as_secs ](d: &Duration) -> (secs: u64)
;

/// The current time in seconds since the Unix epoch, or zero when the clock
/// stands before the epoch.
pub fn unix_now() -> u64 {
    let instant = SystemTime::now();
    let reading: Option<u64> = match since_epoch(&instant) {
        Ok(elapsed) => Some(elapsed.as_secs()),
        Err(_) => None,
    };
    seconds_or_zero(reading)
}

/// The time to count with, given what the clock read: the seconds since the
/// epoch, or zero where the clock stands before the epoch and has none.
pub fn seconds_or_zero(reading: Option<u64>) -> (seconds: u64)
    ensures
        seconds == match reading {
            Some(elapsed) => elapsed,
            None => 0,
        },
{
    match reading {
        Some(elapsed) => elapsed,
        None => 0,
    }
}

} // verus!
