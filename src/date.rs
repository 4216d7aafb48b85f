//! The block's build date, read with a fallback.
use vstd::prelude::*;
use chrono::{Datelike, NaiveDate};

verus! {

/// A day of the proleptic Gregorian calendar, as year, month and day.
#[derive(Clone, Copy, Debug, PartialEq, Eq, Structural)]
pub struct BuildDate {
    pub year: i32,
    pub month: u32,
    pub day: u32,
}

/// Whether `y` is a leap year of the Gregorian calendar.
pub open spec fn is_leap_year(y: int) -> bool {
    (y % 4 == 0 && y % 100 != 0) || y % 400 == 0
}

/// The number of days of month `m` of year `y`.
pub open spec fn days_in_month(y: int, m: int) -> int {
    if m == 2 {
        if is_leap_year(y) { 29 } else { 28 }
    } else if m == 4 || m == 6 || m == 9 || m == 11 {
        30
    } else {
        31
    }
}

/// Year `y`, month `m` and day `d` name a day of the calendar.
pub open spec fn is_calendar_date(y: int, m: int, d: int) -> bool {
    1 <= m <= 12 && 1 <= d <= days_in_month(y, m)
}

impl BuildDate {
    /// The date is a day of the calendar.
    pub open spec fn valid(self) -> bool {
        is_calendar_date(self.year as int, self.month as int, self.day as int)
    }
}

/// The date that stands in for one that could not be read: 1 January 1970,
/// which is also what chrono's `NaiveDate` defaults to.
pub open spec fn default_date() -> BuildDate {
    BuildDate { year: 1970, month: 1, day: 1 }
}

impl Default for BuildDate {
    fn default() -> (r: Self)
        ensures
            r == default_date(),
    {
        BuildDate { year: 1970, month: 1, day: 1 }
    }
}

/// What chrono's parser makes of a text under the pattern `%m/%d/%Y`: year,
/// month and day, or `None` where the text is not such a date.
pub uninterp spec fn mdy_date(s: Seq<char>) -> Option<(i32, u32, u32)>;

/// `s` holds an ASCII decimal digit.
pub open spec fn has_ascii_digit(s: Seq<char>) -> bool {
    exists|i: int| 0 <= i < s.len() && '0' <= #[trigger] s[i] <= '9'
}

/// What reading `s` as `month/day/year` gives: nothing where `s` holds no
/// digit, chrono's reading otherwise.
pub open spec fn parsed_mdy(s: Seq<char>) -> Option<(i32, u32, u32)> {
    if has_ascii_digit(s) {
        mdy_date(s)
    } else {
        None
    }
}

/// Relies on chrono's `NaiveDate::parse_from_str` with the pattern `%m/%d/%Y`:
/// its result depends on the text alone; a date it returns is a day of the
/// calendar; and the month it reads first takes at least one ASCII digit, so a
/// text without one is refused.
#[verifier::external_body]
fn parse_mdy(s: &str) -> (r: Option<(i32, u32, u32)>)
    ensures
        has_ascii_digit(s@) ==> r == mdy_date(s@),
        !has_ascii_digit(s@) ==> r is None,
        r matches Some(t) ==> is_calendar_date(t.0 as int, t.1 as int, t.2 as int),
{
    match NaiveDate::parse_from_str(s, "%m/%d/%Y") {
        Ok(d) => Some((d.year(), d.month(), d.day())),
        Err(_) => None,
    }
}

/// The date that a parse result gives: the parsed day where it is one of the
/// calendar, the default date otherwise.
pub open spec fn date_or_default_spec(parsed: Option<(i32, u32, u32)>) -> BuildDate {
    match parsed {
        Some(t) => if is_calendar_date(t.0 as int, t.1 as int, t.2 as int) {
            BuildDate { year: t.0, month: t.1, day: t.2 }
        } else {
            default_date()
        },
        None => default_date(),
    }
}

/// Whether year `y`, month `m` and day `d` name a day of the calendar.
pub fn is_valid_date(y: i32, m: u32, d: u32) -> (r: bool)
    ensures
        r == is_calendar_date(y as int, m as int, d as int),
{
    if m < 1 || m > 12 || d < 1 {
        return false;
    }
    let leap = (y % 4 == 0 && y % 100 != 0) || y % 400 == 0;
    let days: u32 = if m == 2 {
        if leap { 29 } else { 28 }
    } else if m == 4 || m == 6 || m == 9 || m == 11 {
        30
    } else {
        31
    };
    d <= days
}

/// Turns a parse result into a date, falling back to the default date where
/// the result is `None` or not a day of the calendar.
pub fn date_or_default(parsed: Option<(i32, u32, u32)>) -> (r: BuildDate)
    ensures
        r == date_or_default_spec(parsed),
        r.valid(),
{
    match parsed {
        Some(t) => if is_valid_date(t.0, t.1, t.2) {
            BuildDate { year: t.0, month: t.1, day: t.2 }
        } else {
            BuildDate::default()
        },
        None => BuildDate::default(),
    }
}

/// Reads a `month/day/year` text as a date, falling back to the default date
/// where it is not one.
pub fn parse_build_date(text: &str) -> (r: BuildDate)
    ensures
        r == date_or_default_spec(parsed_mdy(text@)),
        r.valid(),
        !has_ascii_digit(text@) ==> r == default_date(),
{
    date_or_default(parse_mdy(text))
}

} // verus!
