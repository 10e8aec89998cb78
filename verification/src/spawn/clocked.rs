//! Request ids and timestamps for a guest with a clock and a process id.
//!
//! [`get_timestamp`] and [`generate_id`] read the system clock and so are
//! for targets that have one; a guest without a clock uses the functions of
//! the sibling module instead.

use vstd::prelude::*;
use vstd::string::*;
use crate::clock::unix_time;
use crate::decimal::{decimal_text, push_decimal};

verus! {

/// A timestamp: whole seconds, a dot, and the milliseconds without padding.
pub open spec fn timestamp_text(secs: u64, millis: u32) -> Seq<char> {
    decimal_text(secs as nat) + "."@ + decimal_text(millis as nat)
}

/// A request id: process id, seconds and nanoseconds, joined by hyphens.
pub open spec fn id_text(pid: u32, secs: u64, nanos: u32) -> Seq<char> {
    decimal_text(pid as nat) + "-"@ + decimal_text(secs as nat) + "-"@ + decimal_text(
        nanos as nat,
    )
}

/// Writes a time since the epoch as `seconds.milliseconds`.
pub fn format_timestamp(secs: u64, millis: u32) -> (r: String)
    ensures
        r@ == timestamp_text(secs, millis),
{
    let mut out = String::new();
    push_decimal(&mut out, secs);
    out.append(".");
    push_decimal(&mut out, millis as u64);
    assert(out@ =~= timestamp_text(secs, millis));
    out
}

/// Writes a request id as `pid-seconds-nanoseconds`.
pub fn format_id(pid: u32, secs: u64, nanos: u32) -> (r: String)
    ensures
        r@ == id_text(pid, secs, nanos),
{
    let mut out = String::new();
    push_decimal(&mut out, pid as u64);
    out.append("-");
    push_decimal(&mut out, secs);
    out.append("-");
    push_decimal(&mut out, nanos as u64);
    assert(out@ =~= id_text(pid, secs, nanos));
    out
}

/// The current time as a timestamp.
///
/// Which time is read is up to the clock; whatever it reads, the result is
/// that reading written by [`format_timestamp`].
pub fn get_timestamp() -> (r: String)
    ensures
        exists|secs: u64, millis: u32| millis < 1000 && r@ == timestamp_text(secs, millis),
{
    let now = unix_time();
    format_timestamp(now.secs, now.millis)
}

/// A fresh request id for the process `pid`.
///
/// Which time is read is up to the clock; whatever it reads, the result is
/// `pid` and that reading written by [`format_id`].
pub fn generate_id(pid: u32) -> (r: String)
    ensures
        exists|secs: u64, nanos: u32| nanos < 1_000_000_000 && r@ == id_text(pid, secs, nanos),
{
    let now = unix_time();
    format_id(pid, now.secs, now.nanos)
}

} // verus!
