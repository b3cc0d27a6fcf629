//! The wall clock, in whole seconds.

use std::time::{Duration, UNIX_EPOCH};
use vstd::prelude::*;

verus! {

/// `SystemTime::elapsed` on `UNIX_EPOCH`: how far the system clock stands
/// behind the start of 1970, or `None` where it stands before it. Nothing
/// is claimed of what the clock reads.
#[verifier::external_body]
fn since_epoch() -> (elapsed: Option<Duration>) {
    UNIX_EPOCH.elapsed().ok()
}

/// `Duration::as_secs`: the whole seconds of a duration. Durations are
/// opaque here, so nothing is claimed of the number.
pub assume_specification[ Duration::as_secs ](duration: &Duration) -> (seconds: u64);

/// Get the current value for jwt NumericDate.
///
/// Defined in RFC 7519 section 2 to be equivalent to POSIX.1 "Seconds
/// Since the Epoch". A clock that stands before the epoch reads as the
/// epoch itself.
pub fn current_numeric_date() -> (date: u64)
    ensures
        exists|reading: Option<u64>| date == #[trigger] date_of(reading),
{
    let reading = match since_epoch() {
        Some(elapsed) => Some(elapsed.as_secs()),
        None => None,
    };
    numeric_date(reading)
}

/// The NumericDate that stands for a reading of the clock: the seconds
/// that it read, and the epoch itself where it stood before the epoch.
pub open spec fn date_of(reading: Option<u64>) -> u64 {
    match reading {
        Some(seconds) => seconds,
        None => 0,
    }
}

/// The NumericDate for a reading of the clock, given as the whole seconds
/// since the epoch, or as `None` for a clock that stands before it.
pub fn numeric_date(reading: Option<u64>) -> (date: u64)
    ensures
        date == date_of(reading),
{
    match reading {
        Some(seconds) => seconds,
        None => 0,
    }
}

} // verus!
