use vstd::prelude::*;

verus! {

/// An instant as seconds and nanoseconds since the Unix epoch.
#[derive(Clone, Copy, Debug, PartialEq, Eq, Structural)]
pub struct Timestamp {
    pub secs: i64,
    pub nanos: u32,
}

/// The current instant, from `chrono::Utc::now`, split into its whole seconds
/// (`timestamp`) and the nanoseconds of the second (`timestamp_subsec_nanos`).
/// The instant depends on the system clock; what holds of every outcome is
/// that the nanoseconds are less than a second, since `now` builds the
/// instant from the sub-second nanoseconds of a `Duration`.
#[verifier::external_body]
pub fn utc_now() -> (res: Timestamp)
    ensures
        res.nanos < 1_000_000_000,
{
    let now = chrono::Utc::now();
    Timestamp { secs: now.timestamp(), nanos: now.timestamp_subsec_nanos() }
}

/// The current instant written by `chrono::DateTime::<Utc>::to_rfc3339`.
/// The text depends on the clock; what holds of every outcome is that the
/// offset is written as `+00:00` at its end.
#[verifier::external_body]
pub fn now_rfc3339() -> (res: String)
    ensures
        res@.len() >= 6,
        res@.subrange(res@.len() - 6, res@.len() as int) == "+00:00"@,
{
    chrono::Utc::now().to_rfc3339()
}

} // verus!
