//! The time of day, as seconds since the Unix epoch.

use vstd::prelude::*;

verus! {

/// Reads the system clock with `SystemTime::now`, converts the reading with
/// chrono's `DateTime::<Utc>::from` and takes its `timestamp`.
///
/// Nothing is claimed of the reading: a clock that stands before the epoch
/// gives a negative one. (The conversion panics on a clock that stands
/// beyond the years that chrono can hold.)
#[verifier::external_body]
fn utc_timestamp() -> (t: i64) {
    chrono::DateTime::<chrono::Utc>::from(std::time::SystemTime::now()).timestamp()
}

/// The seconds that a clock reading stands for: a reading before the epoch
/// counts as the epoch itself.
pub open spec fn seconds_of(reading: i64) -> u64 {
    if reading < 0 {
        0
    } else {
        reading as u64
    }
}

/// Turns a clock reading into seconds since the epoch.
pub fn seconds_since_epoch(reading: i64) -> (now: u64)
    ensures
        now == seconds_of(reading),
        now <= i64::MAX,
{
    if reading < 0 {
        0
    } else {
        reading as u64
    }
}

/// The current time in seconds since the epoch, as far as the system clock
/// tells it: a clock that stands before the epoch counts as standing at it.
/// The result leaves room for any lifetime that fits a session.
pub fn current_time() -> (now: u64)
    ensures
        now <= i64::MAX,
{
    seconds_since_epoch(utc_timestamp())
}

} // verus!
