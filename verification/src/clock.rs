//! Instants of time, held as seconds since the Unix epoch and nanoseconds
//! since the last whole second.
use vstd::prelude::*;

verus! {

/// An instant in UTC. `nanos` may exceed 999,999,999 only for a leap second.
#[derive(Debug, Clone, Copy, PartialEq, Eq, Structural)]
pub struct Timestamp {
    pub secs: i64,
    pub nanos: u32,
}

impl Timestamp {
    pub open spec fn wf(self) -> bool {
        self.nanos < 2_000_000_000
    }
}

/// The RFC 3339 text that `chrono` writes for an instant (with the offset
/// `+00:00`), or `None` where `chrono` holds no such instant.
pub uninterp spec fn rfc3339_text(secs: i64, nanos: u32) -> Option<Seq<char>>;

/// Calls `chrono::Utc::now` and reads the instant back with `timestamp` and
/// `timestamp_subsec_nanos`. What time it is, is not promised; the instant is
/// one that `chrono` holds, so it has an RFC 3339 text (`DateTime::from_timestamp`
/// gives back every `DateTime` from these two numbers, and `to_rfc3339` does not fail).
#[verifier::external_body]
pub(crate) fn clock_now() -> (t: Timestamp)
    ensures
        t.wf(),
        rfc3339_text(t.secs, t.nanos) is Some,
{
    let now = chrono::Utc::now();
    Timestamp { secs: now.timestamp(), nanos: now.timestamp_subsec_nanos() }
}

/// Calls `chrono::DateTime::to_rfc3339` on the instant that
/// `chrono::DateTime::from_timestamp` makes of `t`; `None` where it makes none.
#[verifier::external_body]
pub(crate) fn rfc3339(t: Timestamp) -> (r: Option<String>)
    ensures
        match r {
            Some(s) => rfc3339_text(t.secs, t.nanos) == Some(s@),
            None => rfc3339_text(t.secs, t.nanos) is None,
        },
{
    match chrono::DateTime::from_timestamp(t.secs, t.nanos) {
        Some(dt) => Some(dt.to_rfc3339()),
        None => None,
    }
}

} // verus!
