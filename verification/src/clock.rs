use vstd::prelude::*;

verus! {

/// An instant as seconds since the Unix epoch and the nanoseconds past that
/// second (in a leap second the nanoseconds may exceed 999 999 999).
#[derive(Clone, Copy, PartialEq, Eq, Structural, Debug)]
pub struct Timestamp {
    pub secs: i64,
    pub nanos: u32,
}

/// Reads the system clock through `chrono::Utc::now` and hands back its
/// `timestamp()` and `timestamp_subsec_nanos()`.
/// What it returns depends on the clock. chrono computes the instant from the
/// time elapsed since the Unix epoch, so the seconds are not negative and the
/// nanoseconds are below one second; nothing else is stated. (chrono panics
/// when the clock reads a time before the epoch.)
#[verifier::external_body]
pub fn now_utc() -> (r: Timestamp)
    ensures
        r.secs >= 0,
        r.nanos < 1_000_000_000,
{
    let now = chrono::Utc::now();
    Timestamp { secs: now.timestamp(), nanos: now.timestamp_subsec_nanos() }
}

} // verus!
