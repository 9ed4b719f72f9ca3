//! The time stamp written in each line.
use vstd::prelude::*;

use core::time::Duration;
use std::time::{SystemTime, SystemTimeError};

verus! {

#[verifier::external_type_specification]
#[verifier::external_body]
pub struct ExSystemTime(SystemTime);

#[verifier::external_type_specification]
#[verifier::external_body]
pub struct ExSystemTimeError(SystemTimeError);

/// Relies on `SystemTime::now`: the system clock's current reading. Nothing
/// is promised of the value.
pub assume_specification[ SystemTime::now ]() -> SystemTime;

/// Relies on `Duration::as_millis`: the whole milliseconds of a duration.
/// A duration is opaque here, so nothing is promised of the value.
pub assume_specification[ Duration::as_millis ](d: &Duration) -> u128;

/// Relies on `SystemTime::duration_since` with the Unix epoch: the time
/// elapsed since then, or an error for a clock set before it.
#[verifier::external_body]
fn since_unix_epoch(t: &SystemTime) -> Result<Duration, SystemTimeError> {
    t.duration_since(std::time::UNIX_EPOCH)
}

/// The time stamp for a clock reading: `None` for a clock set before the
/// Unix epoch, else the whole milliseconds since it. Such a clock reads as
/// zero, and a reading past `u64::MAX` keeps its low 64 bits.
pub open spec fn millis_of(reading: Option<u128>) -> u64 {
    match reading {
        None => 0,
        Some(ms) => (ms % 0x1_0000_0000_0000_0000) as u64,
    }
}

/// Turns a clock reading into the time stamp written in a line.
pub fn millis_from_reading(reading: Option<u128>) -> (r: u64)
    ensures
        r == millis_of(reading),
{
    match reading {
        None => 0,
        Some(ms) => (ms % 0x1_0000_0000_0000_0000) as u64,
    }
}

/// Milliseconds since the Unix epoch by the system clock, as
/// `millis_from_reading` turns the reading.
pub fn timestamp() -> (r: u64) {
    let now = SystemTime::now();
    let reading = match since_unix_epoch(&now) {
        Ok(elapsed) => Some(elapsed.as_millis()),
        Err(_) => None,
    };
    millis_from_reading(reading)
}

} // verus!
