//! Spans of time as whole seconds and nanoseconds.

use vstd::prelude::*;

verus! {

pub const NANOS_PER_SEC: u32 = 1_000_000_000;

pub const NANOS_PER_MILLI: u32 = 1_000_000;

pub const MILLIS_PER_SEC: u64 = 1_000;

/// A span of time: `secs` whole seconds and `nanos` further nanoseconds. The
/// overlay takes its times as fractional seconds; the exact span is kept until
/// the call is made.
#[derive(Clone, Copy, Debug, PartialEq, Eq, Structural)]
pub struct Duration {
    pub secs: u64,
    pub nanos: u32,
}

impl Duration {
    /// The fraction is less than a second.
    pub open spec fn wf(self) -> bool {
        self.nanos < NANOS_PER_SEC
    }

    /// The span in nanoseconds.
    pub open spec fn total_nanos(self) -> nat {
        (self.secs * NANOS_PER_SEC + self.nanos) as nat
    }

    pub open spec fn spec_zero() -> Duration {
        Duration { secs: 0, nanos: 0 }
    }

    /// The empty span.
    #[verifier::when_used_as_spec(spec_zero)]
    pub fn zero() -> (r: Duration)
        ensures
            r == Self::spec_zero(),
            r.wf(),
            r.total_nanos() == 0,
    {
        Duration { secs: 0, nanos: 0 }
    }

    /// The span of `secs` seconds and `nanos` nanoseconds, where `nanos` is
    /// less than a second; `None` where it is not.
    pub fn new(secs: u64, nanos: u32) -> (r: Option<Duration>)
        ensures
            r == if nanos < NANOS_PER_SEC {
                Some(Duration { secs, nanos })
            } else {
                None
            },
            r matches Some(d) ==> d.wf(),
    {
        if nanos < NANOS_PER_SEC {
            Some(Duration { secs, nanos })
        } else {
            None
        }
    }

    pub open spec fn spec_from_secs(secs: u64) -> Duration {
        Duration { secs, nanos: 0 }
    }

    #[verifier::when_used_as_spec(spec_from_secs)]
    pub fn from_secs(secs: u64) -> (r: Duration)
        ensures
            r == Self::spec_from_secs(secs),
            r.wf(),
            r.total_nanos() == secs * NANOS_PER_SEC,
    {
        Duration { secs, nanos: 0 }
    }

    pub open spec fn spec_from_millis(millis: u64) -> Duration {
        Duration {
            secs: millis / MILLIS_PER_SEC,
            nanos: ((millis % MILLIS_PER_SEC) * NANOS_PER_MILLI) as u32,
        }
    }

    #[verifier::when_used_as_spec(spec_from_millis)]
    pub fn from_millis(millis: u64) -> (r: Duration)
        ensures
            r == Self::spec_from_millis(millis),
            r.wf(),
            r.total_nanos() == millis * NANOS_PER_MILLI,
    {
        let secs: u64 = millis / MILLIS_PER_SEC;
        let rest: u64 = millis % MILLIS_PER_SEC;
        let nanos: u32 = (rest as u32) * NANOS_PER_MILLI;
        Duration { secs, nanos }
    }

    pub fn as_secs(&self) -> (r: u64)
        ensures
            r == self.secs,
    {
        self.secs
    }

    pub fn subsec_nanos(&self) -> (r: u32)
        ensures
            r == self.nanos,
    {
        self.nanos
    }

    pub fn is_zero(&self) -> (r: bool)
        ensures
            r == (self.total_nanos() == 0),
            r == (*self == Self::spec_zero()),
    {
        self.secs == 0 && self.nanos == 0
    }
}

/// The span that an optional setting stands for: nothing set is no time at
/// all.
pub open spec fn spec_or_zero(span: Option<Duration>) -> Duration {
    match span {
        Some(d) => d,
        None => Duration::spec_zero(),
    }
}

#[verifier::when_used_as_spec(spec_or_zero)]
pub fn or_zero(span: Option<Duration>) -> (r: Duration)
    ensures
        r == spec_or_zero(span),
{
    match span {
        Some(d) => d,
        None => Duration::zero(),
    }
}

} // verus!
