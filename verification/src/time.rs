//! Points in time, counted from the Unix epoch.

use vstd::prelude::*;

verus! {

/// Nanoseconds in one second.
pub const NANOS_PER_SEC: u32 = 1_000_000_000;

/// A point in time: whole seconds since the Unix epoch and the nanoseconds
/// into the following second.
#[derive(Debug, Clone, Copy)]
pub struct Timestamp {
    secs: i64,
    nanos: u32,
}

impl View for Timestamp {
    type V = int;

    /// The point in time as nanoseconds since the epoch.
    open spec fn view(&self) -> int {
        self.spec_secs() * 1_000_000_000 + self.spec_nanos()
    }
}

impl Timestamp {
    pub closed spec fn spec_secs(&self) -> int {
        self.secs as int
    }

    pub closed spec fn spec_nanos(&self) -> int {
        self.nanos as int
    }

    /// The invariant of the type: the nanoseconds stay below one second.
    pub open spec fn wf(&self) -> bool {
        0 <= self.spec_nanos() < 1_000_000_000
    }

    #[verifier::type_invariant]
    spec fn inv(&self) -> bool {
        self.wf()
    }

    /// The point `nanos` nanoseconds after `secs` seconds since the epoch,
    /// unless `nanos` reaches a whole second.
    pub fn new(secs: i64, nanos: u32) -> (r: Option<Timestamp>)
        ensures
            r is Some <==> nanos < NANOS_PER_SEC,
            r matches Some(t) ==> t.wf() && t.spec_secs() == secs && t.spec_nanos() == nanos,
    {
        if nanos < NANOS_PER_SEC {
            Some(Timestamp { secs, nanos })
        } else {
            None
        }
    }

    /// Whole seconds since the epoch.
    pub fn secs(&self) -> (s: i64)
        ensures
            s == self.spec_secs(),
    {
        self.secs
    }

    /// Nanoseconds into the current second.
    pub fn subsec_nanos(&self) -> (n: u32)
        ensures
            n == self.spec_nanos(),
    {
        self.nanos
    }

    /// The point `seconds` later (earlier, if negative), unless the seconds
    /// leave the range of `i64`.
    pub fn checked_add_secs(&self, seconds: i64) -> (r: Option<Timestamp>)
        ensures
            r is Some <==> i64::MIN <= self.spec_secs() + seconds <= i64::MAX,
            r matches Some(t) ==> {
                &&& t@ == self@ + seconds * 1_000_000_000
                &&& t.spec_secs() == self.spec_secs() + seconds
                &&& t.spec_nanos() == self.spec_nanos()
                &&& t.wf()
            },
    {
        proof {
            use_type_invariant(self);
        }
        match self.secs.checked_add(seconds) {
            Some(secs) => Some(Timestamp { secs, nanos: self.nanos }),
            None => None,
        }
    }

    /// Whether, at this point, more than `span` has passed since `earlier`.
    pub fn is_more_than_after(&self, span: &Span, earlier: &Timestamp) -> (b: bool)
        ensures
            b == (self@ - earlier@ > span@),
    {
        proof {
            use_type_invariant(self);
            use_type_invariant(earlier);
            use_type_invariant(span);
        }
        let passed: i128 = (self.secs as i128 - earlier.secs as i128) * 1_000_000_000 + (
        self.nanos as i128 - earlier.nanos as i128);
        let limit: i128 = span.secs() as i128 * 1_000_000_000 + span.subsec_nanos() as i128;
        passed > limit
    }

    /// Whether this point lies strictly after `other`.
    pub fn is_after(&self, other: &Timestamp) -> (b: bool)
        ensures
            b == (self@ > other@),
    {
        proof {
            use_type_invariant(self);
            use_type_invariant(other);
        }
        self.secs > other.secs || (self.secs == other.secs && self.nanos > other.nanos)
    }
}

/// A length of time: whole seconds and the nanoseconds beyond them.
#[derive(Debug, Clone, Copy)]
pub struct Span {
    secs: u64,
    nanos: u32,
}

impl View for Span {
    type V = int;

    /// The length in nanoseconds.
    open spec fn view(&self) -> int {
        self.spec_secs() * 1_000_000_000 + self.spec_nanos()
    }
}

impl Span {
    pub closed spec fn spec_secs(&self) -> int {
        self.secs as int
    }

    pub closed spec fn spec_nanos(&self) -> int {
        self.nanos as int
    }

    /// The invariant of the type: the nanoseconds stay below one second.
    pub open spec fn wf(&self) -> bool {
        0 <= self.spec_secs() && 0 <= self.spec_nanos() < 1_000_000_000
    }

    #[verifier::type_invariant]
    spec fn inv(&self) -> bool {
        self.wf()
    }

    /// The length of `secs` seconds and `nanos` nanoseconds, unless `nanos`
    /// reaches a whole second.
    pub fn new(secs: u64, nanos: u32) -> (r: Option<Span>)
        ensures
            r is Some <==> nanos < NANOS_PER_SEC,
            r matches Some(t) ==> t.wf() && t.spec_secs() == secs && t.spec_nanos() == nanos,
    {
        if nanos < NANOS_PER_SEC {
            Some(Span { secs, nanos })
        } else {
            None
        }
    }

    /// The length of `secs` whole seconds.
    pub fn from_secs(secs: u64) -> (t: Span)
        ensures
            t.wf(),
            t.spec_secs() == secs,
            t.spec_nanos() == 0,
            t@ == secs * 1_000_000_000,
    {
        Span { secs, nanos: 0 }
    }

    /// The whole seconds of the length.
    pub fn secs(&self) -> (s: u64)
        ensures
            s == self.spec_secs(),
    {
        self.secs
    }

    /// The nanoseconds beyond the whole seconds.
    pub fn subsec_nanos(&self) -> (n: u32)
        ensures
            n == self.spec_nanos(),
    {
        self.nanos
    }

    /// Whether this length is strictly greater than `other`.
    pub fn is_longer_than(&self, other: &Span) -> (b: bool)
        ensures
            b == (self@ > other@),
    {
        proof {
            use_type_invariant(self);
            use_type_invariant(other);
        }
        self.secs > other.secs || (self.secs == other.secs && self.nanos > other.nanos)
    }
}

} // verus!
