use vstd::prelude::*;

verus! {

/// Whether `year` is a leap year of the Gregorian calendar.
pub open spec fn is_leap(year: int) -> bool {
    year % 4 == 0 && !(year % 100 == 0 && year % 400 != 0)
}

/// Number of days in `month` (1 to 12) of `year`.
pub open spec fn days_in_month(year: int, month: int) -> int {
    if month == 2 {
        if is_leap(year) { 29 } else { 28 }
    } else if month == 4 || month == 6 || month == 9 || month == 11 {
        30
    } else {
        31
    }
}

/// Whether `(year, month, date)` names a day of the calendar.
pub open spec fn is_valid_date(year: int, month: int, date: int) -> bool {
    1 <= month <= 12 && 1 <= date <= days_in_month(year, month)
}

/// A day of the Gregorian calendar.
#[derive(Debug, Clone, Copy, PartialEq, Eq, Structural)]
pub struct Date {
    year: u32,
    month: u32,
    date: u32,
}

#[derive(Debug, Clone, Copy, PartialEq, Eq, Structural)]
pub enum DateValidationError {
    OutOfRange,
}

impl Date {
    #[verifier::type_invariant]
    spec fn inv(&self) -> bool {
        is_valid_date(self.year as int, self.month as int, self.date as int)
    }

    pub closed spec fn spec_year(&self) -> nat {
        self.year as nat
    }

    pub closed spec fn spec_month(&self) -> nat {
        self.month as nat
    }

    pub closed spec fn spec_date(&self) -> nat {
        self.date as nat
    }

    /// The day `date` of `month` in `year`; fails with `OutOfRange` unless the
    /// month is 1 to 12 and the day is within that month.
    pub fn new(year: u32, month: u32, date: u32) -> (r: Result<Self, DateValidationError>)
        ensures
            is_valid_date(year as int, month as int, date as int) <==> r is Ok,
            r is Ok ==> r->Ok_0.spec_year() == year && r->Ok_0.spec_month() == month
                && r->Ok_0.spec_date() == date,
            r is Err ==> r->Err_0 == DateValidationError::OutOfRange,
    {
        if month < 1 || month > 12 {
            return Err(DateValidationError::OutOfRange);
        }
        if date < 1 || date > Date::get_last_day_of_month(year, month) {
            return Err(DateValidationError::OutOfRange);
        }
        Ok(Date { year, month, date })
    }

    pub fn year(&self) -> (r: u32)
        ensures
            r == self.spec_year(),
    {
        self.year
    }

    pub fn month(&self) -> (r: u32)
        ensures
            r == self.spec_month(),
            1 <= r <= 12,
    {
        proof { use_type_invariant(self); }
        self.month
    }

    pub fn date(&self) -> (r: u32)
        ensures
            r == self.spec_date(),
            1 <= r <= days_in_month(self.spec_year() as int, self.spec_month() as int),
    {
        proof { use_type_invariant(self); }
        self.date
    }

    /// Number of days in `month` of `year`, February having one more in leap years.
    pub fn get_last_day_of_month(year: u32, month: u32) -> (r: u32)
        requires
            1 <= month <= 12,
        ensures
            r == days_in_month(year as int, month as int),
    {
        let leap_adjust: u32 = if month == 2 && Date::is_leap_year(year) { 1 } else { 0 };
        let base: u32 = match month {
            2 => 28,
            4 | 6 | 9 | 11 => 30,
            _ => 31,
        };
        base + leap_adjust
    }

    /// Whether `year` is divisible by 4, and not by 100 unless also by 400.
    pub fn is_leap_year(year: u32) -> (r: bool)
        ensures
            r == is_leap(year as int),
    {
        year % 4 == 0 && !(year % 100 == 0 && year % 400 != 0)
    }
}

} // verus!
