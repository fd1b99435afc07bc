use vstd::prelude::*;
use crate::timestamp::Timestamp;
use core::cmp::Ordering;
use core::time::Duration;

verus! {

/// The duration of `secs` whole seconds.
pub uninterp spec fn duration_of_secs(secs: u64) -> Duration;

/// Relies on `Duration::from_secs`: the duration of `secs` whole seconds, which
/// depends on `secs` alone.
#[verifier::external_body]
fn duration_from_secs(secs: u64) -> (r: Duration)
    ensures
        r == duration_of_secs(secs),
{
    Duration::from_secs(secs)
}

/// Latest valid hour of the day.
pub const MAX_HOUR: usize = 23;

/// Latest valid minute of an hour.
pub const MAX_MINUTE: usize = 59;

/// A time of day, to the minute.
#[derive(Debug, Clone, Copy, PartialEq, Eq, Structural, Ord)]
pub struct Time {
    hour: usize,
    minute: usize,
}

#[derive(Debug, PartialEq, Eq, Structural)]
pub enum TimeValidationError {
    OutOfRange,
}

/// Minutes elapsed since midnight at `hour:minute`.
pub open spec fn minutes_of_day(hour: int, minute: int) -> int {
    hour * 60 + minute
}

impl Time {
    #[verifier::type_invariant]
    spec fn inv(&self) -> bool {
        self.hour <= MAX_HOUR && self.minute <= MAX_MINUTE
    }

    pub closed spec fn spec_hour(&self) -> nat {
        self.hour as nat
    }

    pub closed spec fn spec_minute(&self) -> nat {
        self.minute as nat
    }

    /// Minutes elapsed since midnight.
    pub open spec fn spec_minutes(&self) -> int {
        minutes_of_day(self.spec_hour() as int, self.spec_minute() as int)
    }

    /// The time `hour:minute`; fails unless `hour <= 23` and `minute <= 59`.
    pub fn new(hour: usize, minute: usize) -> (r: Result<Self, TimeValidationError>)
        ensures
            (hour <= MAX_HOUR && minute <= MAX_MINUTE) <==> r is Ok,
            r is Ok ==> r->Ok_0.spec_hour() == hour && r->Ok_0.spec_minute() == minute,
            r is Err ==> r->Err_0 == TimeValidationError::OutOfRange,
    {
        if hour > MAX_HOUR || minute > MAX_MINUTE {
            return Err(TimeValidationError::OutOfRange);
        }
        Ok(Time { hour, minute })
    }

    pub fn hour(&self) -> (r: usize)
        ensures
            r == self.spec_hour(),
            r <= MAX_HOUR,
    {
        proof { use_type_invariant(self); }
        self.hour
    }

    pub fn minute(&self) -> (r: usize)
        ensures
            r == self.spec_minute(),
            r <= MAX_MINUTE,
    {
        proof { use_type_invariant(self); }
        self.minute
    }

    /// Minutes elapsed since midnight.
    pub fn minutes(&self) -> (r: u64)
        ensures
            r == self.spec_minutes(),
            r < 24 * 60,
    {
        proof { use_type_invariant(self); }
        (self.hour * 60 + self.minute) as u64
    }

    /// Whole minutes from `from` up to `self`; `None` when `from` is later.
    pub fn minutes_from(&self, from: &Self) -> (r: Option<u64>)
        ensures
            r == (if from.spec_minutes() > self.spec_minutes() {
                None
            } else {
                Some((self.spec_minutes() - from.spec_minutes()) as u64)
            }),
            r matches Some(m) ==> m < 24 * 60,
    {
        let to = self.minutes();
        let since = from.minutes();
        if since > to {
            return None;
        }
        Some(to - since)
    }

    /// The time elapsed from `from` up to `self`, in whole minutes; `None` when
    /// `from` is later than `self`.
    pub fn duration_from(&self, from: &Self) -> (r: Option<Duration>)
        ensures
            r == (if from.spec_minutes() > self.spec_minutes() {
                None
            } else {
                Some(duration_of_secs(((self.spec_minutes() - from.spec_minutes()) * 60) as u64))
            }),
    {
        proof {
            use_type_invariant(self);
            use_type_invariant(from);
        }
        match self.minutes_from(from) {
            None => None,
            Some(minutes) => Some(duration_from_secs(minutes * 60)),
        }
    }
}

/// How two counts of minutes compare.
pub open spec fn order_of(a: int, b: int) -> Ordering {
    if a < b {
        Ordering::Less
    } else if a == b {
        Ordering::Equal
    } else {
        Ordering::Greater
    }
}

impl Time {
    /// Orders two times by hour, then by minute.
    pub fn compare(&self, other: &Self) -> (r: Ordering)
        ensures
            r == order_of(self.spec_minutes(), other.spec_minutes()),
    {
        let a = self.minutes();
        let b = other.minutes();
        if a < b {
            Ordering::Less
        } else if a == b {
            Ordering::Equal
        } else {
            Ordering::Greater
        }
    }
}

impl PartialOrd for Time {
    fn partial_cmp(&self, other: &Self) -> (r: Option<Ordering>)
        ensures
            r == Some(order_of(self.spec_minutes(), other.spec_minutes())),
    {
        Some(self.compare(other))
    }
}

impl vstd::std_specs::cmp::PartialOrdSpecImpl for Time {
    open spec fn obeys_partial_cmp_spec() -> bool {
        true
    }

    open spec fn partial_cmp_spec(&self, other: &Time) -> Option<Ordering> {
        Some(order_of(self.spec_minutes(), other.spec_minutes()))
    }
}

impl Timestamp for Time {
    open spec fn point(&self) -> int {
        self.spec_minutes()
    }

    fn is_before(&self, other: &Self) -> (r: bool) {
        self.minutes() < other.minutes()
    }

    fn is_same_as(&self, other: &Self) -> (r: bool) {
        self.minutes() == other.minutes()
    }
}

} // verus!
