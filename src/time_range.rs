use vstd::prelude::*;
use crate::date_time::DateTime;
use crate::timestamp::Timestamp;

verus! {

#[derive(Debug, Clone, Copy, PartialEq, Eq, Structural)]
pub enum TimeRangeValidationError {
    OppositeEnd,
    SameEnd,
}

/// Outcome of checking that a range may run from point `start` to point `end`:
/// equal bounds are checked first, then reversed ones.
pub open spec fn range_check(start: int, end: int) -> Result<(), TimeRangeValidationError> {
    if start == end {
        Err(TimeRangeValidationError::SameEnd)
    } else if start > end {
        Err(TimeRangeValidationError::OppositeEnd)
    } else {
        Ok(())
    }
}

/// Whether point `t` lies in the range from `start` to `end`: the start belongs
/// to the range, the end does not.
pub open spec fn within(start: int, end: int, t: int) -> bool {
    t == start || (start < t && t < end)
}

/// A non-empty stretch of time from `start` up to, but not including, `end`.
#[derive(Debug)]
pub struct TimeRange<T: Timestamp> {
    start: T,
    end: T,
}

/// A range between two instants in UTC.
pub type DateTimeRange = TimeRange<DateTime>;

pub type DateTimeRangeValidationError = TimeRangeValidationError;

impl<T: Timestamp> TimeRange<T> {
    #[verifier::type_invariant]
    spec fn inv(&self) -> bool {
        self.start.point() < self.end.point()
    }

    pub closed spec fn spec_start(&self) -> T {
        self.start
    }

    pub closed spec fn spec_end(&self) -> T {
        self.end
    }

    /// The start comes strictly before the end; every range satisfies this.
    pub open spec fn is_valid(&self) -> bool {
        self.spec_start().point() < self.spec_end().point()
    }

    /// Whether the range includes `t`.
    pub open spec fn spec_includes(&self, t: T) -> bool {
        within(self.spec_start().point(), self.spec_end().point(), t.point())
    }

    /// Two ranges that meet end to start share no instant: the meeting instant
    /// belongs to the later range only.
    pub proof fn lemma_back_to_back_disjoint(earlier: Self, later: Self, t: T)
        requires
            earlier.is_valid(),
            later.is_valid(),
            earlier.spec_end().point() == later.spec_start().point(),
        ensures
            !(earlier.spec_includes(t) && later.spec_includes(t)),
            later.spec_includes(earlier.spec_end()),
            !earlier.spec_includes(earlier.spec_end()),
    {
    }

    /// The range from `start` to `end`; fails with `SameEnd` when they coincide
    /// and with `OppositeEnd` when `end` comes first.
    pub fn new(start: T, end: T) -> (r: Result<Self, TimeRangeValidationError>)
        ensures
            match r {
                Ok(range) => range_check(start.point(), end.point()) is Ok
                    && range.spec_start() == start && range.spec_end() == end,
                Err(e) => range_check(start.point(), end.point()) == Err::<(), _>(e),
            },
    {
        match TimeRange::validate_range(&start, &end) {
            Ok(()) => Ok(TimeRange { start, end }),
            Err(e) => Err(e),
        }
    }

    /// Whether `other` lies in the range: at its start, or after its start and
    /// before its end.
    pub fn includes(&self, other: &T) -> (r: bool)
        ensures
            r == self.spec_includes(*other),
    {
        other.is_same_as(&self.start) || (self.start.is_before(other) && other.is_before(&self.end))
    }

    pub fn start(&self) -> (r: &T)
        ensures
            *r == self.spec_start(),
            self.is_valid(),
    {
        proof { use_type_invariant(self); }
        &self.start
    }

    pub fn end(&self) -> (r: &T)
        ensures
            *r == self.spec_end(),
            self.is_valid(),
    {
        proof { use_type_invariant(self); }
        &self.end
    }

    /// Moves the start to `start`, checked against the current end; on failure
    /// the range is left as it was.
    pub fn set_start(&mut self, start: T) -> (r: Result<(), TimeRangeValidationError>)
        ensures
            r == range_check(start.point(), old(self).spec_end().point()),
            r is Ok ==> final(self).spec_start() == start && final(self).spec_end() == old(self).spec_end(),
            r is Err ==> *final(self) == *old(self),
    {
        match TimeRange::validate_range(&start, &self.end) {
            Ok(()) => {
                self.start = start;
                Ok(())
            },
            Err(e) => Err(e),
        }
    }

    /// Moves the end to `end`, checked against the current start; on failure
    /// the range is left as it was.
    pub fn set_end(&mut self, end: T) -> (r: Result<(), TimeRangeValidationError>)
        ensures
            r == range_check(old(self).spec_start().point(), end.point()),
            r is Ok ==> final(self).spec_start() == old(self).spec_start() && final(self).spec_end() == end,
            r is Err ==> *final(self) == *old(self),
    {
        match TimeRange::validate_range(&self.start, &end) {
            Ok(()) => {
                self.end = end;
                Ok(())
            },
            Err(e) => Err(e),
        }
    }

    /// Checks that a range may run from `start` to `end`.
    pub fn validate_range(start: &T, end: &T) -> (r: Result<(), TimeRangeValidationError>)
        ensures
            r == range_check(start.point(), end.point()),
    {
        if start.is_same_as(end) {
            return Err(TimeRangeValidationError::SameEnd);
        }
        if end.is_before(start) {
            return Err(TimeRangeValidationError::OppositeEnd);
        }
        Ok(())
    }
}

impl<T: Timestamp + Copy> Clone for TimeRange<T> {
    fn clone(&self) -> (r: Self)
        ensures
            r == *self,
    {
        proof { use_type_invariant(self); }
        TimeRange { start: self.start, end: self.end }
    }
}

} // verus!
