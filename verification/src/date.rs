//! Calendar dates and the count of full years between two of them.

use chrono::{Datelike, NaiveDate};
use vstd::prelude::*;

verus! {

/// The earliest year a date may have.
pub const MIN_YEAR: i32 = -262_143;

/// The latest year a date may have.
pub const MAX_YEAR: i32 = 262_142;

/// Leap years of the proleptic Gregorian calendar.
pub open spec fn is_leap_year(year: int) -> bool {
    year % 4 == 0 && (year % 100 != 0 || year % 400 == 0)
}

/// Number of days of `month` (1 to 12) in `year`.
pub open spec fn month_length(year: int, month: int) -> int {
    if month == 2 {
        if is_leap_year(year) {
            29
        } else {
            28
        }
    } else if month == 4 || month == 6 || month == 9 || month == 11 {
        30
    } else {
        31
    }
}

/// Number of days of `year` that lie before the first of `month`.
pub open spec fn days_before_month(year: int, month: int) -> int
    decreases month,
{
    if month <= 1 {
        0
    } else {
        days_before_month(year, month - 1) + month_length(year, month - 1)
    }
}

/// Whether year, month and day name a day of the calendar within the
/// supported range of years.
pub open spec fn is_calendar_date(year: int, month: int, day: int) -> bool {
    &&& MIN_YEAR <= year <= MAX_YEAR
    &&& 1 <= month <= 12
    &&& 1 <= day <= month_length(year, month)
}

/// Position of a day within its year, counted from 1.
pub open spec fn day_of_year(year: int, month: int, day: int) -> int {
    days_before_month(year, month) + day
}

/// The days before each month, written out.
pub proof fn lemma_days_before_month(year: int, month: int)
    requires
        1 <= month <= 12,
    ensures
        days_before_month(year, month) == (if month == 1 {
            0int
        } else if month == 2 {
            31
        } else if month == 3 {
            59
        } else if month == 4 {
            90
        } else if month == 5 {
            120
        } else if month == 6 {
            151
        } else if month == 7 {
            181
        } else if month == 8 {
            212
        } else if month == 9 {
            243
        } else if month == 10 {
            273
        } else if month == 11 {
            304
        } else {
            334
        }) + (if month > 2 && is_leap_year(year) {
            1int
        } else {
            0
        }),
{
    reveal_with_fuel(days_before_month, 13);
}

/// Asks chrono for the day of the year of a calendar date:
/// `NaiveDate::from_ymd_opt` followed by `Datelike::ordinal`.
///
/// The contract claims that chrono accepts exactly the dates of the
/// proleptic Gregorian calendar with a year from `MIN_YEAR` to `MAX_YEAR`,
/// and that the ordinal of an accepted date is the number of days of the
/// months before it plus the day of the month.
#[verifier::external_body]
fn chrono_ordinal(year: i32, month: u32, day: u32) -> (ordinal: Option<u32>)
    ensures
        ordinal.is_some() == is_calendar_date(year as int, month as int, day as int),
        ordinal matches Some(n) ==> n == day_of_year(year as int, month as int, day as int),
{
    Some(NaiveDate::from_ymd_opt(year, month, day)?.ordinal())
}

/// Whether `year` is a leap year.
pub fn leap_year(year: i32) -> (leap: bool)
    ensures
        leap == is_leap_year(year as int),
{
    year % 4 == 0 && (year % 100 != 0 || year % 400 == 0)
}

/// A date as three numbers.
pub struct Ymd {
    pub year: int,
    pub month: int,
    pub day: int,
}

/// Whether `date` names a day of the calendar.
pub open spec fn is_valid_ymd(date: Ymd) -> bool {
    is_calendar_date(date.year, date.month, date.day)
}

/// Whether `a` falls earlier within its year than `b` does within its own,
/// going by month and day of the month.
pub open spec fn earlier_in_year(a: Ymd, b: Ymd) -> bool {
    a.month < b.month || (a.month == b.month && a.day < b.day)
}

/// Whether `a` is `b` or a later day.
pub open spec fn on_or_after(a: Ymd, b: Ymd) -> bool {
    a.year > b.year || (a.year == b.year && !earlier_in_year(a, b))
}

/// Number of full years from `from` to `to`: the difference of the years,
/// less one while `to` has not yet reached the month and day of `from`.
/// Negative exactly when `to` is an earlier day than `from`.
pub open spec fn full_years_between(from: Ymd, to: Ymd) -> int {
    to.year - from.year - (if earlier_in_year(to, from) {
        1int
    } else {
        0
    })
}

/// Where month and day would fall in a leap year (year 0 is one), counted
/// in days from 1. Unlike the day of the year, this does not depend on the
/// year.
pub open spec fn leap_position(month: int, day: int) -> int {
    days_before_month(0, month) + day
}

/// The day of the year of a date, moved onto the scale of a leap year: in
/// a common year every day after February is counted one later.
pub open spec fn leap_scaled(year: int, ordinal: int) -> int {
    if !is_leap_year(year) && ordinal >= 60 {
        ordinal + 1
    } else {
        ordinal
    }
}

/// Scaling the day of the year gives the position in a leap year.
pub proof fn lemma_leap_scaled_is_position(date: Ymd)
    requires
        is_valid_ymd(date),
    ensures
        leap_scaled(date.year, day_of_year(date.year, date.month, date.day)) == leap_position(
            date.month,
            date.day,
        ),
{
    lemma_days_before_month(date.year, date.month);
    lemma_days_before_month(0, date.month);
}

/// Positions in a leap year are ordered as month and day are.
pub proof fn lemma_leap_position_orders(a: Ymd, b: Ymd)
    requires
        is_valid_ymd(a),
        is_valid_ymd(b),
    ensures
        earlier_in_year(a, b) <==> leap_position(a.month, a.day) < leap_position(b.month, b.day),
{
    lemma_days_before_month(0, a.month);
    lemma_days_before_month(0, b.month);
}

/// The full years between two dates count the anniversaries reached: the
/// count is at least `n` exactly when `to` is on or after the day that has
/// the month and day of `from`, `n` years on.
pub proof fn lemma_full_years_count_anniversaries(from: Ymd, to: Ymd, n: int)
    ensures
        full_years_between(from, to) >= n <==> on_or_after(
            to,
            Ymd { year: from.year + n, month: from.month, day: from.day },
        ),
{
}

/// A day of the calendar. Every value is a date that exists, with a year
/// from `MIN_YEAR` to `MAX_YEAR`.
#[derive(Clone, Copy, Debug)]
pub struct CalendarDate {
    year: i32,
    month: u32,
    day: u32,
}

impl View for CalendarDate {
    type V = Ymd;

    closed spec fn view(&self) -> Ymd {
        Ymd { year: self.year as int, month: self.month as int, day: self.day as int }
    }
}

impl CalendarDate {
    #[verifier::type_invariant]
    spec fn exists_in_calendar(self) -> bool {
        is_calendar_date(self.year as int, self.month as int, self.day as int)
    }

    /// The date with this year, month (from 1) and day of the month (from
    /// 1), if there is such a day.
    pub fn from_ymd(year: i32, month: u32, day: u32) -> (date: Option<CalendarDate>)
        ensures
            date.is_some() == is_calendar_date(year as int, month as int, day as int),
            date matches Some(d) ==> d@ == (Ymd {
                year: year as int,
                month: month as int,
                day: day as int,
            }),
    {
        match chrono_ordinal(year, month, day) {
            Some(_) => Some(CalendarDate { year, month, day }),
            None => None,
        }
    }

    /// The year.
    pub fn year(&self) -> (year: i32)
        ensures
            year == self@.year,
    {
        self.year
    }

    /// The month, from 1.
    pub fn month(&self) -> (month: u32)
        ensures
            month == self@.month,
    {
        self.month
    }

    /// The day of the month, from 1.
    pub fn day(&self) -> (day: u32)
        ensures
            day == self@.day,
    {
        self.day
    }

    /// Day of the year, counted from 1.
    pub fn ordinal(&self) -> (ordinal: u32)
        ensures
            is_valid_ymd(self@),
            ordinal == day_of_year(self@.year, self@.month, self@.day),
    {
        proof {
            use_type_invariant(self);
        }
        chrono_ordinal(self.year, self.month, self.day).unwrap()
    }

    /// Where the date's month and day would fall in a leap year, counted
    /// in days from 1.
    pub fn position_in_leap_year(&self) -> (position: u32)
        ensures
            position == leap_position(self@.month, self@.day),
    {
        proof {
            use_type_invariant(self);
            lemma_leap_scaled_is_position(self@);
            lemma_days_before_month(self@.year, self@.month);
        }
        let ordinal: u32 = self.ordinal();
        if ordinal >= 60 && !leap_year(self.year) {
            ordinal + 1
        } else {
            ordinal
        }
    }
}

/// Age in full years on the day `today` of someone born on `birth`.
///
/// The year only counts once the birthday has come round, by month and
/// day; a birthday on 29 February counts from 1 March in common years.
pub fn age_in_years(birth: &CalendarDate, today: &CalendarDate) -> (age: i32)
    ensures
        age == full_years_between(birth@, today@),
{
    proof {
        use_type_invariant(birth);
        use_type_invariant(today);
        lemma_leap_position_orders(today@, birth@);
    }
    let years: i32 = today.year - birth.year;
    if today.position_in_leap_year() < birth.position_in_leap_year() {
        years - 1
    } else {
        years
    }
}

} // verus!
