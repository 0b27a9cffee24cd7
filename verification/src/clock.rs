//! The time at which an entry was last modified, to the minute, as a date of
//! the Gregorian calendar and a time of day.

use vstd::prelude::*;
use crate::text::{decimal, digit_char};

verus! {

/// Years divisible by four are leap years, but of the centuries only those
/// divisible by four hundred.
pub open spec fn is_leap_year(year: int) -> bool {
    year % 4 == 0 && (year % 100 != 0 || year % 400 == 0)
}

/// The number of days of a month of a year.
pub open spec fn days_in_month(year: int, month: int) -> int {
    if month == 2 {
        if is_leap_year(year) {
            29
        } else {
            28
        }
    } else if month == 4 || month == 6 || month == 9 || month == 11 {
        30
    } else {
        31
    }
}

/// The first year that a time can lie in.
pub const MIN_YEAR: i32 = -262143;

/// The last year that a time can lie in.
pub const MAX_YEAR: i32 = 262142;

/// A minute of a day that the calendar has. The calendar is the Gregorian
/// one, carried on before its introduction; the year before the year 1 is
/// the year 0.
pub open spec fn is_calendar_minute(year: int, month: int, day: int, hour: int, minute: int) -> bool {
    &&& MIN_YEAR <= year <= MAX_YEAR
    &&& 1 <= month <= 12
    &&& 1 <= day <= days_in_month(year, month)
    &&& 0 <= hour <= 23
    &&& 0 <= minute <= 59
}

/// `n` in two decimal digits.
pub open spec fn two_digits(n: nat) -> Seq<char>
    recommends
        n < 100,
{
    seq![digit_char(n / 10), digit_char(n % 10)]
}

/// `n` in four decimal digits.
pub open spec fn four_digits(n: nat) -> Seq<char>
    recommends
        n < 10000,
{
    two_digits(n / 100) + two_digits(n % 100)
}

/// A year in four digits; with a sign in front, and in more digits where it
/// has more, if it lies before the year 0 or after the year 9999.
pub open spec fn year_text(year: int) -> Seq<char> {
    if 0 <= year <= 9999 {
        four_digits(year as nat)
    } else if year > 9999 {
        seq!['+'] + decimal(year as nat)
    } else if year > -10000 {
        seq!['-'] + four_digits((-year) as nat)
    } else {
        seq!['-'] + decimal((-year) as nat)
    }
}

/// A minute written as `YYYY/MM/DD HH:MM`.
pub open spec fn minute_text(year: int, month: nat, day: nat, hour: nat, minute: nat) -> Seq<char> {
    year_text(year) + seq!['/'] + two_digits(month) + seq!['/'] + two_digits(day) + seq![' ']
        + two_digits(hour) + seq![':'] + two_digits(minute)
}

/// A minute of the calendar.
#[derive(Clone, Copy, Debug, PartialEq, Eq, Structural)]
pub struct Timestamp {
    year: i32,
    month: u8,
    day: u8,
    hour: u8,
    minute: u8,
}

/// `NaiveDate::from_ymd_opt`, `NaiveDate::and_hms_opt` and
/// `NaiveDateTime::format` of the `chrono` crate, in a row. The first two
/// yield a value exactly for the days that the Gregorian calendar has in the
/// years from `MIN_YEAR` to `MAX_YEAR`, and for the hours, minutes and seconds
/// of a day. The format `%Y/%m/%d %H:%M` then writes the year in four digits
/// with zeros in front, and with a sign and in at least four digits where it
/// lies before the year 0 or after the year 9999; and month, day, hour and
/// minute in two digits each, with zeros in front.
#[verifier::external_body]
fn chrono_minute_text(year: i32, month: u8, day: u8, hour: u8, minute: u8) -> (text: Option<String>)
    ensures
        text is Some <==> is_calendar_minute(
            year as int,
            month as int,
            day as int,
            hour as int,
            minute as int,
        ),
        text matches Some(t) ==> t@ == minute_text(
            year as int,
            month as nat,
            day as nat,
            hour as nat,
            minute as nat,
        ),
{
    let date = chrono::NaiveDate::from_ymd_opt(year, u32::from(month), u32::from(day))?;
    let time = date.and_hms_opt(u32::from(hour), u32::from(minute), 0)?;
    Some(time.format("%Y/%m/%d %H:%M").to_string())
}

impl Timestamp {
    /// Every value of the type is a minute that the calendar has.
    #[verifier::type_invariant]
    pub closed spec fn on_calendar(self) -> bool {
        is_calendar_minute(
            self.year as int,
            self.month as int,
            self.day as int,
            self.hour as int,
            self.minute as int,
        )
    }

    /// The year, from `MIN_YEAR` to `MAX_YEAR`.
    pub closed spec fn spec_year(self) -> int {
        self.year as int
    }

    /// The month, from 1 to 12.
    pub closed spec fn spec_month(self) -> nat {
        self.month as nat
    }

    /// The day of the month, from 1.
    pub closed spec fn spec_day(self) -> nat {
        self.day as nat
    }

    /// The hour, from 0 to 23.
    pub closed spec fn spec_hour(self) -> nat {
        self.hour as nat
    }

    /// The minute, from 0 to 59.
    pub closed spec fn spec_minute(self) -> nat {
        self.minute as nat
    }

    /// The minute written as `YYYY/MM/DD HH:MM`.
    pub open spec fn spec_text(self) -> Seq<char> {
        minute_text(
            self.spec_year(),
            self.spec_month(),
            self.spec_day(),
            self.spec_hour(),
            self.spec_minute(),
        )
    }

    /// The minute `hour:minute` of the day `year`/`month`/`day`, if the
    /// calendar has it.
    pub fn new(year: i32, month: u8, day: u8, hour: u8, minute: u8) -> (made: Option<Timestamp>)
        ensures
            made is Some <==> is_calendar_minute(
                year as int,
                month as int,
                day as int,
                hour as int,
                minute as int,
            ),
            made matches Some(t) ==> t.spec_year() == year && t.spec_month() == month
                && t.spec_day() == day && t.spec_hour() == hour && t.spec_minute() == minute,
    {
        if year < MIN_YEAR || year > MAX_YEAR || month < 1 || month > 12 || day < 1 || hour > 23
            || minute > 59 {
            return None;
        }
        // the years repeat every four hundred: count them from one that is not negative
        let cycle: u32 = (year + 262400) as u32 % 400;
        let leap: bool = cycle % 4 == 0 && (cycle % 100 != 0 || cycle == 0);
        let days: u8 = if month == 2 {
            if leap {
                29
            } else {
                28
            }
        } else if month == 4 || month == 6 || month == 9 || month == 11 {
            30
        } else {
            31
        };
        if day > days {
            return None;
        }
        Some(Timestamp { year, month, day, hour, minute })
    }

    /// The year, from `MIN_YEAR` to `MAX_YEAR`.
    pub fn year(&self) -> (year: i32)
        ensures
            year == self.spec_year(),
    {
        self.year
    }

    /// The month, from 1 to 12.
    pub fn month(&self) -> (month: u8)
        ensures
            month == self.spec_month(),
    {
        self.month
    }

    /// The day of the month, from 1.
    pub fn day(&self) -> (day: u8)
        ensures
            day == self.spec_day(),
    {
        self.day
    }

    /// The hour, from 0 to 23.
    pub fn hour(&self) -> (hour: u8)
        ensures
            hour == self.spec_hour(),
    {
        self.hour
    }

    /// The minute, from 0 to 59.
    pub fn minute(&self) -> (minute: u8)
        ensures
            minute == self.spec_minute(),
    {
        self.minute
    }

    /// Writes the minute as `YYYY/MM/DD HH:MM`: in sixteen characters, if the
    /// year has no sign.
    pub fn text(&self) -> (text: String)
        ensures
            text@ == self.spec_text(),
            0 <= self.spec_year() <= 9999 ==> text@.len() == 16,
    {
        proof {
            use_type_invariant(self);
        }
        let text = chrono_minute_text(self.year, self.month, self.day, self.hour, self.minute);
        text.unwrap()
    }
}

} // verus!
