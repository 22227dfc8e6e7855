//! The wall clock, in milliseconds since the Unix epoch.
//!
//! The clock is the system's: it can be set, forwards or back. Whoever
//! measures ages with it sees an entry stamped in the future as age 0.

use std::time::{Duration, SystemTime};
use vstd::prelude::*;

verus! {

#[verifier::external_type_specification]
#[verifier::external_body]
pub struct ExSystemTime(std::time::SystemTime);

/// `SystemTime::now`. The contract is empty: two readings of a clock need
/// not agree, and nothing else is promised of one.
#[verifier::external_body]
fn system_time_now() -> SystemTime {
    SystemTime::now()
}

/// `SystemTime::duration_since`, measured from `UNIX_EPOCH`: the distance
/// from the epoch, or `None` for a time before it. Nothing is claimed of
/// the distance.
#[verifier::external_body]
fn since_epoch(time: &SystemTime) -> Option<Duration> {
    time.duration_since(std::time::UNIX_EPOCH).ok()
}

/// `Duration::as_millis`. Nothing is claimed of the number.
#[verifier::external_body]
fn whole_millis(distance: &Duration) -> u128 {
    distance.as_millis()
}

/// The instant that a reading of the clock stands for. A reading is the
/// clock's distance from the epoch in milliseconds, or `None` where the
/// clock stands before the epoch; that counts as the epoch itself, and a
/// distance beyond 64 bits as the last instant there is.
pub open spec fn instant_of(reading: Option<u128>) -> u64 {
    match reading {
        Some(millis) => if millis > u64::MAX {
            u64::MAX
        } else {
            millis as u64
        },
        None => 0,
    }
}

/// Turns a reading of the clock into an instant.
pub fn instant_from_reading(reading: Option<u128>) -> (instant: u64)
    ensures
        instant == instant_of(reading),
{
    match reading {
        Some(millis) => {
            if millis > u64::MAX as u128 {
                u64::MAX
            } else {
                millis as u64
            }
        },
        None => 0,
    }
}

/// The current instant. A reading before the epoch is reported as 0.
pub fn now_ms() -> u64 {
    let time = system_time_now();
    let reading = match since_epoch(&time) {
        Some(distance) => Some(whole_millis(&distance)),
        None => None,
    };
    instant_from_reading(reading)
}

} // verus!
