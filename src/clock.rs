//! The local wall clock, which stamps the records of the serial feed.

use vstd::prelude::*;
use std::time::{Duration, SystemTime, SystemTimeError};

verus! {

/// std's SystemTime, carried through as an opaque value.
#[verifier::external_type_specification]
#[verifier::external_body]
pub struct ExSystemTime(SystemTime);

/// std's SystemTimeError, carried through as an opaque value.
#[verifier::external_type_specification]
#[verifier::external_body]
pub struct ExSystemTimeError(SystemTimeError);

/// Relies on SystemTime::now: the current time, of which nothing is known.
pub assume_specification[ SystemTime::now ]() -> SystemTime;

/// Relies on SystemTime::duration_since, measured from UNIX_EPOCH: the time
/// elapsed since the epoch, an error when `t` is before it. It depends on the
/// clock, so nothing is stated of it.
#[verifier::external_body]
fn since_epoch(t: &SystemTime) -> Result<Duration, SystemTimeError> {
    t.duration_since(std::time::UNIX_EPOCH)
}

/// Relies on Duration::as_secs: the whole seconds of a duration.
pub assume_specification[ Duration::as_secs ](this: &Duration) -> u64;

/// The current time in whole seconds since the Unix epoch, or `None` when the
/// clock reads a time before the epoch.
pub fn get_ts() -> (r: Option<u64>) {
    let now = SystemTime::now();
    match since_epoch(&now) {
        Ok(d) => Some(d.as_secs()),
        Err(_) => None,
    }
}

} // verus!
