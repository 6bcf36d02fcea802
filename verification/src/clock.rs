//! The wall clock, as milliseconds since the Unix epoch.

use std::time::{Duration, SystemTime, SystemTimeError};
use vstd::prelude::*;

verus! {

#[verifier::external_type_specification]
#[verifier::external_body]
pub struct ExSystemTime(SystemTime);

#[verifier::external_type_specification]
#[verifier::external_body]
pub struct ExSystemTimeError(SystemTimeError);

/// `SystemTime::now` reads the system clock; nothing is claimed of what it reads.
pub assume_specification[ SystemTime::now ]() -> (now: SystemTime);

/// `SystemTime::duration_since` returns the time elapsed from `earlier` to `this`, or an
/// error when `earlier` is the later of the two; nothing is claimed of either.
pub assume_specification[ SystemTime::duration_since ](this: &SystemTime, earlier: SystemTime) -> (elapsed: Result<Duration, SystemTimeError>);

/// `Duration::as_millis` returns the whole milliseconds of a duration; the duration is
/// opaque here, so nothing is claimed of the number.
pub assume_specification[ Duration::as_millis ](this: &Duration) -> (millis: u128);

/// The constant `SystemTime::UNIX_EPOCH`: the start of 1970 in UTC.
#[verifier::external_body]
fn unix_epoch() -> (epoch: SystemTime) {
    SystemTime::UNIX_EPOCH
}

/// Milliseconds from the Unix epoch to now. A clock that stands before the epoch
/// counts as the epoch itself.
pub(crate) fn unix_millis() -> (millis: u128) {
    let now = SystemTime::now();
    match now.duration_since(unix_epoch()) {
        Ok(elapsed) => elapsed.as_millis(),
        Err(_) => 0,
    }
}

} // verus!
