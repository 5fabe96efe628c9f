//! Reading the system clock as whole seconds since the Unix epoch.

use std::time::{Duration, SystemTime, SystemTimeError};
use vstd::prelude::*;

verus! {

/// A point in time of the system clock, carried through untouched.
#[verifier::external_type_specification]
#[verifier::external_body]
pub struct ExSystemTime(SystemTime);

/// The error that std gives when one time lies before another, carried
/// through untouched.
#[verifier::external_type_specification]
#[verifier::external_body]
pub struct ExSystemTimeError(SystemTimeError);

/// `SystemTime::now`: the clock's present reading. Nothing is claimed of it.
pub assume_specification[ SystemTime::now ]() -> (now: SystemTime);

/// The whole seconds that a duration holds, whatever fraction of a second it
/// holds besides.
pub uninterp spec fn whole_secs(elapsed: Duration) -> u64;

/// `Duration::as_secs`: the whole seconds of the duration, which are a
/// function of the duration alone.
pub assume_specification[ Duration::as_secs ](elapsed: &Duration) -> (secs: u64)
    ensures
        secs == whole_secs(*elapsed),
;

/// The time elapsed from the Unix epoch to `time`, or the error that std
/// gives for a time before the epoch.
pub uninterp spec fn since_epoch(time: SystemTime) -> Result<Duration, SystemTimeError>;

/// The reading that belongs to each answer of the clock: the whole seconds of
/// the time elapsed, or the error as it is.
pub open spec fn reading_of(elapsed: Result<Duration, SystemTimeError>) -> Result<
    u64,
    SystemTimeError,
> {
    match elapsed {
        Ok(time) => Ok(whole_secs(time)),
        Err(e) => Err(e),
    }
}

/// `SystemTime::duration_since`, measured from `SystemTime::UNIX_EPOCH`: the
/// time elapsed since the epoch, or the error std gives for a time before it.
/// Either is a function of the point in time alone.
#[verifier::external_body]
fn since_unix_epoch(time: &SystemTime) -> (elapsed: Result<Duration, SystemTimeError>)
    ensures
        elapsed == since_epoch(*time),
{
    time.duration_since(SystemTime::UNIX_EPOCH)
}

/// The whole seconds between the Unix epoch and `time`, or the error of a time
/// that lies before the epoch.
pub(crate) fn unix_seconds(time: &SystemTime) -> (reading: Result<u64, SystemTimeError>)
    ensures
        reading == reading_of(since_epoch(*time)),
{
    whole_seconds(since_unix_epoch(time))
}

/// The reading that belongs to each answer of the clock.
///
/// Time elapsed since the epoch gives its whole seconds as the reading. The
/// error of a time before the epoch is handed on as it is, never turned into
/// a reading.
pub fn whole_seconds(elapsed: Result<Duration, SystemTimeError>) -> (reading: Result<
    u64,
    SystemTimeError,
>)
    ensures
        reading == reading_of(elapsed),
{
    match elapsed {
        Ok(elapsed) => Ok(elapsed.as_secs()),
        Err(e) => Err(e),
    }
}

} // verus!
