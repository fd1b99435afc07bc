use vstd::prelude::*;
use crate::timestamp::Timestamp;

verus! {

/// Number of distinct values of the nanosecond part, the step between two
/// consecutive seconds on the time line.
pub open spec fn nanos_span() -> int {
    0x1_0000_0000
}

/// An instant in UTC: whole seconds since the Unix epoch and a nanosecond part.
/// Instants are ordered by seconds, then by nanoseconds (a leap second carries a
/// nanosecond part of one second or more).
#[derive(Debug, Clone, Copy, PartialEq, Eq, Structural)]
pub struct DateTime {
    seconds: i64,
    nanos: u32,
}

impl DateTime {
    pub closed spec fn spec_seconds(&self) -> int {
        self.seconds as int
    }

    pub closed spec fn spec_nanos(&self) -> int {
        self.nanos as int
    }

    /// The instant `nanos` nanoseconds after second `seconds` of the Unix epoch.
    pub fn new(seconds: i64, nanos: u32) -> (r: Self)
        ensures
            r.spec_seconds() == seconds,
            r.spec_nanos() == nanos,
    {
        DateTime { seconds, nanos }
    }

    pub fn seconds(&self) -> (r: i64)
        ensures
            r == self.spec_seconds(),
    {
        self.seconds
    }

    pub fn nanos(&self) -> (r: u32)
        ensures
            r == self.spec_nanos(),
    {
        self.nanos
    }

    proof fn lemma_point_order(a: &Self, b: &Self)
        ensures
            a.seconds < b.seconds ==> a.point() < b.point(),
            a.seconds == b.seconds ==> (a.point() < b.point() <==> a.nanos < b.nanos),
            a.seconds == b.seconds ==> (a.point() == b.point() <==> a.nanos == b.nanos),
            a.seconds > b.seconds ==> a.point() > b.point(),
    {
        let (sa, sb, na, nb) = (a.seconds as int, b.seconds as int, a.nanos as int, b.nanos as int);
        assert(sa < sb ==> sa * nanos_span() + na < sb * nanos_span() + nb) by (nonlinear_arith)
            requires
                0 <= na < nanos_span(),
                0 <= nb < nanos_span(),
        ;
        assert(sa > sb ==> sa * nanos_span() + na > sb * nanos_span() + nb) by (nonlinear_arith)
            requires
                0 <= na < nanos_span(),
                0 <= nb < nanos_span(),
        ;
    }
}

impl Timestamp for DateTime {
    open spec fn point(&self) -> int {
        self.spec_seconds() * nanos_span() + self.spec_nanos()
    }

    fn is_before(&self, other: &Self) -> (r: bool) {
        proof { DateTime::lemma_point_order(self, other); }
        self.seconds < other.seconds || (self.seconds == other.seconds && self.nanos < other.nanos)
    }

    fn is_same_as(&self, other: &Self) -> (r: bool) {
        proof { DateTime::lemma_point_order(self, other); }
        self.seconds == other.seconds && self.nanos == other.nanos
    }
}

} // verus!
