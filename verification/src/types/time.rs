//! Points in time, as seconds and nanoseconds since the Unix epoch.
use vstd::prelude::*;
use crate::error::opt_text;

verus! {

/// A UTC point in time: whole seconds since the Unix epoch and the
/// nanoseconds within that second.
#[derive(Debug, Clone, Copy, PartialEq, Eq, Structural)]
pub struct Timestamp {
    pub secs: i64,
    pub nanos: u32,
}

/// The RFC 3339 rendering that chrono gives the instant `secs`/`nanos`, or
/// nothing when chrono cannot represent it.
pub uninterp spec fn rfc3339_of(secs: i64, nanos: u32) -> Option<Seq<char>>;

/// `chrono::DateTime::from_timestamp(secs, nanos)` rendered by `to_rfc3339()`.
#[verifier::external_body]
fn rfc3339_text(secs: i64, nanos: u32) -> (r: Option<String>)
    ensures
        opt_text(r) == rfc3339_of(secs, nanos),
{
    match chrono::DateTime::from_timestamp(secs, nanos) {
        Some(instant) => Some(instant.to_rfc3339()),
        None => None,
    }
}

/// `chrono::Utc::now()`, as seconds and nanoseconds since the epoch. The clock
/// is after the epoch, the nanoseconds lie within a second, and chrono renders
/// the instant it gave back.
#[verifier::external_body]
fn utc_now() -> (t: Timestamp)
    ensures
        t.secs >= 0,
        t.nanos < 1_000_000_000,
        rfc3339_of(t.secs, t.nanos) is Some,
{
    let now = chrono::Utc::now();
    Timestamp { secs: now.timestamp(), nanos: now.timestamp_subsec_nanos() }
}

impl Timestamp {
    /// Whether chrono can render this instant.
    pub open spec fn renderable(self) -> bool {
        rfc3339_of(self.secs, self.nanos) is Some
    }

    /// The current time.
    pub fn now() -> (t: Timestamp)
        ensures
            t.secs >= 0,
            t.nanos < 1_000_000_000,
            t.renderable(),
    {
        utc_now()
    }

    /// The RFC 3339 rendering of this instant, if chrono can represent it.
    pub fn to_rfc3339(&self) -> (r: Option<String>)
        ensures
            opt_text(r) == rfc3339_of(self.secs, self.nanos),
    {
        rfc3339_text(self.secs, self.nanos)
    }

    /// This instant moved `secs` seconds earlier.
    pub fn minus_secs(&self, secs: i64) -> (r: Timestamp)
        requires
            secs >= 0,
            self.secs - secs >= i64::MIN,
        ensures
            r == (Timestamp { secs: (self.secs - secs) as i64, nanos: self.nanos }),
    {
        Timestamp { secs: self.secs - secs, nanos: self.nanos }
    }
}

} // verus!
