//! Spans of time for the client configuration.
use vstd::prelude::*;

verus! {

/// A span of time: whole seconds and the nanoseconds beyond them.
#[derive(Debug, Clone, Copy, PartialEq, Eq, Hash, Structural)]
pub struct Duration {
    secs: u64,
    nanos: u32,
}

impl Duration {
    /// Whole seconds of the span.
    pub closed spec fn secs_of(self) -> u64 {
        self.secs
    }

    /// Nanoseconds beyond the whole seconds.
    pub closed spec fn nanos_of(self) -> u32 {
        self.nanos
    }

    /// The span in nanoseconds.
    pub open spec fn total_nanos(self) -> nat {
        self.secs_of() as nat * 1_000_000_000 + self.nanos_of() as nat
    }

    /// A span of `secs` seconds.
    pub fn from_secs(secs: u64) -> (d: Duration)
        ensures
            d.secs_of() == secs,
            d.nanos_of() == 0,
    {
        Duration { secs, nanos: 0 }
    }

    /// A span of `millis` milliseconds.
    pub fn from_millis(millis: u64) -> (d: Duration)
        ensures
            d.secs_of() == millis / 1000,
            d.nanos_of() == (millis % 1000) * 1_000_000,
    {
        Duration { secs: millis / 1000, nanos: ((millis % 1000) * 1_000_000) as u32 }
    }

    /// A span of `secs` seconds and `nanos` nanoseconds.
    pub fn new(secs: u64, nanos: u32) -> (d: Duration)
        requires
            nanos < 1_000_000_000,
        ensures
            d.secs_of() == secs,
            d.nanos_of() == nanos,
    {
        Duration { secs, nanos }
    }

    /// Whole seconds of the span.
    pub fn as_secs(&self) -> (r: u64)
        ensures
            r == self.secs_of(),
    {
        self.secs
    }

    /// Nanoseconds beyond the whole seconds.
    pub fn subsec_nanos(&self) -> (r: u32)
        ensures
            r == self.nanos_of(),
    {
        self.nanos
    }

    /// Whether the span is empty.
    pub fn is_zero(&self) -> (r: bool)
        ensures
            r == (self.secs_of() == 0 && self.nanos_of() == 0),
    {
        self.secs == 0 && self.nanos == 0
    }
}

} // verus!
