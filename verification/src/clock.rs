//! Reading the system clock.
//!
//! Everything here is a thin contract over `std::time`; the rest of the
//! crate only ever sees whole seconds and sub-second parts as integers.

use vstd::prelude::*;
use std::time::{Duration, SystemTime, SystemTimeError, UNIX_EPOCH};

verus! {

/// `std::time::SystemTime`: a reading of the system clock, carried through
/// without looking inside.
#[verifier::external_type_specification]
#[verifier::external_body]
pub struct ExSystemTime(SystemTime);

/// `std::time::SystemTimeError`: what `duration_since` returns when the
/// earlier time is in fact the later one. Nothing is read from it.
#[verifier::external_type_specification]
#[verifier::external_body]
pub struct ExSystemTimeError(SystemTimeError);

/// `SystemTime::now` reads the system clock. Nothing is claimed of the
/// reading: it may differ from call to call and may even go backwards. On a
/// target that has no clock the call panics.
pub assume_specification[ SystemTime::now ]() -> (now: SystemTime);

/// `Duration::as_secs` gives the whole seconds of a duration. Nothing is
/// claimed of the number.
pub assume_specification[ Duration::as_secs ](d: &Duration) -> (secs: u64);

/// `Duration::subsec_millis` gives the fractional part of a duration in whole
/// milliseconds, which std documents to be less than one thousand.
pub assume_specification[ Duration::subsec_millis ](d: &Duration) -> (millis: u32)
    ensures
        millis < 1000,
;

/// `Duration::subsec_nanos` gives the fractional part of a duration in
/// nanoseconds, which std documents to be less than one billion.
pub assume_specification[ Duration::subsec_nanos ](d: &Duration) -> (nanos: u32)
    ensures
        nanos < 1_000_000_000,
;

/// `SystemTime::duration_since` against `UNIX_EPOCH`: the time elapsed since
/// the epoch, or an error when the clock reads earlier than the epoch.
/// Nothing is claimed of which one comes back.
#[verifier::external_body]
fn since_unix_epoch(t: &SystemTime) -> (r: Result<Duration, SystemTimeError>) {
    t.duration_since(UNIX_EPOCH)
}

/// A reading of the clock, as time elapsed since the Unix epoch.
pub struct UnixTime {
    /// Whole seconds.
    pub secs: u64,
    /// The rest, in nanoseconds.
    pub nanos: u32,
    /// The rest, in whole milliseconds.
    pub millis: u32,
}

impl UnixTime {
    /// The sub-second parts are in range.
    pub open spec fn wf(&self) -> bool {
        &&& self.nanos < 1_000_000_000
        &&& self.millis < 1000
    }
}

/// Reads the clock. A clock set before the epoch reads as the epoch itself.
///
/// This is for targets that have a system clock. Where there is none, the
/// standard library panics on the reading; a guest on such a target stamps
/// its requests without a clock.
pub fn unix_time() -> (r: UnixTime)
    ensures
        r.wf(),
{
    let now = SystemTime::now();
    match since_unix_epoch(&now) {
        Ok(elapsed) => UnixTime {
            secs: elapsed.as_secs(),
            nanos: elapsed.subsec_nanos(),
            millis: elapsed.subsec_millis(),
        },
        Err(_) => UnixTime { secs: 0, nanos: 0, millis: 0 },
    }
}

} // verus!
