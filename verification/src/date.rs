//! Calendar dates as they are stamped into backup file names, and the
//! number of days between two of them.

use vstd::prelude::*;
use crate::text::{decimal, digit_char, digit_of, push_decimal};

verus! {

/// A calendar date of the proleptic Gregorian calendar.
#[derive(Clone, Copy, Debug, PartialEq, Eq, Structural)]
pub struct Date {
    pub year: u32,
    pub month: u32,
    pub day: u32,
}

/// Leap years of the Gregorian calendar.
pub open spec fn is_leap_year(year: int) -> bool {
    year % 4 == 0 && (year % 100 != 0 || year % 400 == 0)
}

/// Number of days of month `month` in year `year`.
pub open spec fn days_in_month(year: int, month: int) -> int {
    if month == 2 {
        if is_leap_year(year) {
            29
        } else {
            28
        }
    } else if month == 4 || month == 6 || month == 9 || month == 11 {
        30
    } else {
        31
    }
}

/// Whether the calendar has a day `day` in month `month` of year `year`.
pub open spec fn is_calendar_date(year: int, month: int, day: int) -> bool {
    1 <= month <= 12 && 1 <= day <= days_in_month(year, month)
}

/// Days of the years `1 ..= year - 1`; negative before year 1.
pub open spec fn days_before_year(year: int) -> int {
    365 * (year - 1) + (year - 1) / 4 - (year - 1) / 100 + (year - 1) / 400
}

/// Days of the months `1 ..= month - 1` of year `year`.
pub open spec fn days_before_month(year: int, month: int) -> int
    decreases month,
{
    if month <= 1 {
        0
    } else {
        days_before_month(year, month - 1) + days_in_month(year, month - 1)
    }
}

/// Number of the day in a count of days in which 1 January of year 1 is
/// day 1.
pub open spec fn day_number(year: int, month: int, day: int) -> int {
    days_before_year(year) + days_before_month(year, month) + day
}

/// The year as four digits, padded with zeros.
pub open spec fn year_digits(year: int) -> Seq<char> {
    let tens = year / 10;
    let hundreds = tens / 10;
    let thousands = hundreds / 10;
    seq![
        digit_char(thousands % 10),
        digit_char(hundreds % 10),
        digit_char(tens % 10),
        digit_char(year % 10),
    ]
}

/// `chrono::NaiveDate::from_ymd_opt` returns a date exactly when the
/// calendar has that day; the years admitted here are all within the
/// range of `NaiveDate`.
#[verifier::external_body]
fn calendar_has(year: u32, month: u32, day: u32) -> (b: bool)
    requires
        year <= 9999,
    ensures
        b == is_calendar_date(year as int, month as int, day as int),
{
    chrono::NaiveDate::from_ymd_opt(year as i32, month, day).is_some()
}

/// `chrono::NaiveDate::signed_duration_since` followed by
/// `TimeDelta::num_days`: the whole days from `earlier` to `later`,
/// negative when `later` comes first.
#[verifier::external_body]
fn days_since(later: Date, earlier: Date) -> (n: i64)
    requires
        later.is_valid(),
        earlier.is_valid(),
    ensures
        n == later.day_number() - earlier.day_number(),
{
    let a = chrono::NaiveDate::from_ymd_opt(later.year as i32, later.month, later.day).unwrap();
    let b = chrono::NaiveDate::from_ymd_opt(earlier.year as i32, earlier.month, earlier.day).unwrap();
    a.signed_duration_since(b).num_days()
}

/// Year, month and day of `chrono::Local::now()`, the current date in
/// the machine's time zone. Whatever the clock says, chrono gives a day
/// that the calendar has.
#[verifier::external_body]
fn local_now() -> (parts: (i32, u32, u32))
    ensures
        is_calendar_date(parts.0 as int, parts.1 as int, parts.2 as int),
{
    let d = chrono::Local::now().date_naive();
    (chrono::Datelike::year(&d), chrono::Datelike::month(&d), chrono::Datelike::day(&d))
}

/// Year, month and day of `chrono::Utc::now()`, the current date in UTC.
/// Whatever the clock says, chrono gives a day that the calendar has.
#[verifier::external_body]
fn utc_now() -> (parts: (i32, u32, u32))
    ensures
        is_calendar_date(parts.0 as int, parts.1 as int, parts.2 as int),
{
    let d = chrono::Utc::now().date_naive();
    (chrono::Datelike::year(&d), chrono::Datelike::month(&d), chrono::Datelike::day(&d))
}

/// The clock stands in a year that has not four digits, this one.
#[derive(Clone, Copy, Debug, PartialEq, Eq, Structural)]
pub struct ClockError {
    pub year: i32,
}

/// What asking the clock for today's date can give: a valid date, or
/// the year of the clock where that is outside `0 ..= 9999`.
pub open spec fn clock_date(r: Result<Date, ClockError>) -> bool {
    match r {
        Ok(date) => date.is_valid(),
        Err(e) => e.year < 0 || e.year > 9999,
    }
}

impl Date {
    /// A date of the calendar whose year has at most four digits.
    pub open spec fn is_valid(self) -> bool {
        self.year <= 9999 && is_calendar_date(self.year as int, self.month as int, self.day as int)
    }

    /// See [`day_number`].
    pub open spec fn day_number(self) -> int {
        day_number(self.year as int, self.month as int, self.day as int)
    }

    /// The date as it is written in file names: month and day without
    /// padding, the year with four digits, joined by `-`.
    pub open spec fn stamp_spec(self) -> Seq<char> {
        decimal(self.month as nat) + seq!['-'] + decimal(self.day as nat) + seq!['-'] + year_digits(
            self.year as int,
        )
    }

    /// The date of the given year, month and day, if the calendar has it
    /// and the year is within `0 ..= 9999`.
    pub fn from_parts(year: i32, month: u32, day: u32) -> (r: Option<Date>)
        ensures
            r is Some <==> 0 <= year <= 9999 && is_calendar_date(year as int, month as int, day as int),
            r matches Some(d) ==> d.year == year && d.month == month && d.day == day && d.is_valid(),
    {
        if year < 0 || year > 9999 {
            return None;
        }
        let y: u32 = year as u32;
        if calendar_has(y, month, day) {
            Some(Date { year: y, month, day })
        } else {
            None
        }
    }

    /// Whole days from `earlier` to `self`; negative when `self` comes
    /// first.
    pub fn days_since(&self, earlier: &Date) -> (n: i64)
        requires
            self.is_valid(),
            earlier.is_valid(),
        ensures
            n == self.day_number() - earlier.day_number(),
    {
        days_since(*self, *earlier)
    }

    /// The day of the calendar in year `year`, month `month`, as the
    /// clock gives it: the date, or the year where it is outside
    /// `0 ..= 9999`.
    pub fn from_clock(year: i32, month: u32, day: u32) -> (r: Result<Date, ClockError>)
        requires
            is_calendar_date(year as int, month as int, day as int),
        ensures
            r is Ok <==> 0 <= year <= 9999,
            r matches Ok(d) ==> d.year == year && d.month == month && d.day == day && d.is_valid(),
            r matches Err(e) ==> e.year == year,
    {
        match Date::from_parts(year, month, day) {
            Some(date) => Ok(date),
            None => Err(ClockError { year }),
        }
    }

    /// Today's date in the machine's time zone. It fails only where the
    /// clock stands in a year outside `0 ..= 9999`, and then with that
    /// year.
    pub fn today_local() -> (r: Result<Date, ClockError>)
        ensures
            clock_date(r),
    {
        let (year, month, day) = local_now();
        Date::from_clock(year, month, day)
    }

    /// Today's date in UTC. It fails only where the clock stands in a year
    /// outside `0 ..= 9999`, and then with that year.
    pub fn today_utc() -> (r: Result<Date, ClockError>)
        ensures
            clock_date(r),
    {
        let (year, month, day) = utc_now();
        Date::from_clock(year, month, day)
    }

    /// The stamp of the date, see [`Date::stamp_spec`].
    pub fn stamp(&self) -> (s: String)
        requires
            self.is_valid(),
        ensures
            s@ == self.stamp_spec(),
    {
        let mut s = String::new();
        push_decimal(&mut s, self.month as u64);
        s.push('-');
        push_decimal(&mut s, self.day as u64);
        s.push('-');
        let year = self.year;
        let tens = year / 10;
        let hundreds = tens / 10;
        let thousands = hundreds / 10;
        s.push(digit_of((thousands % 10) as u8));
        s.push(digit_of((hundreds % 10) as u8));
        s.push(digit_of((tens % 10) as u8));
        s.push(digit_of((year % 10) as u8));
        assert(s@ =~= self.stamp_spec());
        s
    }
}

} // verus!
