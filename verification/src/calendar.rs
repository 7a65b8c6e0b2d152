//! Calendar dates and instants, as the database stores them in text.

use chrono::{DateTime, Datelike, NaiveDate};
use vstd::prelude::*;

verus! {

/// Seconds that a session stays valid after login: ten days.
pub const SESSION_LIFETIME_SECS: i64 = 864000;

/// The earliest year of the calendar that dates can hold.
pub open spec fn min_year() -> int {
    -262143
}

/// The latest year of the calendar that dates can hold.
pub open spec fn max_year() -> int {
    262142
}

/// Whether a year of the proleptic Gregorian calendar is a leap year.
pub open spec fn is_leap_year(year: int) -> bool {
    year % 4 == 0 && (year % 100 != 0 || year % 400 == 0)
}

/// The number of days in a month (1 to 12) of a year.
pub open spec fn days_in_month(year: int, month: int) -> int {
    if month == 2 {
        if is_leap_year(year) {
            29
        } else {
            28
        }
    } else if month == 4 || month == 6 || month == 9 || month == 11 {
        30
    } else {
        31
    }
}

/// Whether year, month and day name a day of the calendar within the range
/// of years that dates can hold.
pub open spec fn valid_calendar_date(year: int, month: int, day: int) -> bool {
    &&& min_year() <= year <= max_year()
    &&& 1 <= month <= 12
    &&& 1 <= day <= days_in_month(year, month)
}

/// The decimal digit character of a value below ten.
pub open spec fn digit_char(value: int) -> char {
    (48 + value) as char
}

/// The decimal digits of a natural number, most significant first.
pub open spec fn decimal_digits(value: nat) -> Seq<char>
    decreases value,
{
    if value < 10 {
        seq![digit_char(value as int)]
    } else {
        decimal_digits(value / 10) + seq![digit_char((value % 10) as int)]
    }
}

/// Text padded on the left with zeros to at least the given width.
pub open spec fn zero_padded(text: Seq<char>, width: nat) -> Seq<char>
    decreases width,
{
    if text.len() >= width {
        text
    } else {
        seq!['0'] + zero_padded(text, (width - 1) as nat)
    }
}

/// The text of a year in a date: four digits for years 0 to 9999, else an
/// explicit sign and at least four digits.
pub open spec fn year_text(year: int) -> Seq<char> {
    if 0 <= year <= 9999 {
        zero_padded(decimal_digits(year as nat), 4)
    } else if year < 0 {
        seq!['-'] + zero_padded(decimal_digits((-year) as nat), 4)
    } else {
        seq!['+'] + zero_padded(decimal_digits(year as nat), 4)
    }
}

/// The text of a date, `YYYY-MM-DD` for years 0 to 9999.
pub open spec fn date_text_of(year: int, month: int, day: int) -> Seq<char> {
    year_text(year) + seq!['-'] + zero_padded(decimal_digits(month as nat), 2) + seq!['-']
        + zero_padded(decimal_digits(day as nat), 2)
}

/// The year, month and day that the database text of a date is read as
/// (with the format `%Y-%m-%d`), or `None` when it is not a date.
pub uninterp spec fn parsed_date(text: Seq<char>) -> Option<(i32, u32, u32)>;

/// The RFC 3339 text of the instant `secs` seconds and `nanos` nanoseconds
/// after the Unix epoch, in UTC; `None` when the instant is out of range.
pub uninterp spec fn rfc3339_at(secs: i64, nanos: u32) -> Option<Seq<char>>;

/// Calls `NaiveDate::from_ymd_opt`, which by its documentation and source
/// returns a date exactly when the day exists in the calendar and the year
/// lies within the range that `NaiveDate` holds.
#[verifier::external_body]
pub(crate) fn calendar_date_exists(year: i32, month: u32, day: u32) -> (exists: bool)
    ensures
        exists == valid_calendar_date(year as int, month as int, day as int),
{
    NaiveDate::from_ymd_opt(year, month, day).is_some()
}

/// Calls `NaiveDate::parse_from_str` with the format `%Y-%m-%d` and reads
/// back year, month and day. A parsed `NaiveDate` is always a day of the
/// calendar within its range. The text that `Display` writes for a date
/// reads back as that date: `%Y` takes an explicit sign and any number of
/// digits, or else up to four digits, and `%m` and `%d` take up to two.
#[verifier::external_body]
pub(crate) fn parse_ymd(text: &str) -> (ymd: Option<(i32, u32, u32)>)
    ensures
        ymd == parsed_date(text@),
        ymd matches Some((y, m, d)) ==> valid_calendar_date(y as int, m as int, d as int),
        forall|y: i32, m: u32, d: u32|
            valid_calendar_date(y as int, m as int, d as int) && text@ == #[trigger] date_text_of(
                y as int,
                m as int,
                d as int,
            ) ==> ymd == Some((y, m, d)),
{
    match NaiveDate::parse_from_str(text, "%Y-%m-%d") {
        Ok(date) => Some((date.year(), date.month(), date.day())),
        Err(_) => None,
    }
}

/// Calls `NaiveDate::from_ymd_opt` and the `Display` of the date, which
/// writes the year (four digits for 0 to 9999, else signed and padded to
/// four digits), a dash, the month in two digits, a dash and the day in two
/// digits.
#[verifier::external_body]
pub(crate) fn ymd_text(year: i32, month: u32, day: u32) -> (text: String)
    requires
        valid_calendar_date(year as int, month as int, day as int),
    ensures
        text@ == date_text_of(year as int, month as int, day as int),
{
    NaiveDate::from_ymd_opt(year, month, day).unwrap().to_string()
}

/// Calls `DateTime::from_timestamp` and, when the instant is in range,
/// `DateTime::to_rfc3339`.
#[verifier::external_body]
pub(crate) fn rfc3339_text(secs: i64, nanos: u32) -> (text: Option<String>)
    ensures
        match (text, rfc3339_at(secs, nanos)) {
            (Some(t), Some(expected)) => t@ == expected,
            (None, None) => true,
            _ => false,
        },
{
    DateTime::from_timestamp(secs, nanos).map(|instant| instant.to_rfc3339())
}

/// A day of the calendar.
#[derive(PartialEq, Eq, Structural, Clone, Copy, Debug)]
pub struct Date {
    year: i32,
    month: u32,
    day: u32,
}

impl Date {
    #[verifier::type_invariant]
    spec fn is_calendar_day(self) -> bool {
        valid_calendar_date(self.year as int, self.month as int, self.day as int)
    }

    /// The year of the date.
    pub closed spec fn year_of(self) -> i32 {
        self.year
    }

    /// The month of the date, 1 to 12.
    pub closed spec fn month_of(self) -> u32 {
        self.month
    }

    /// The day of the month.
    pub closed spec fn day_of(self) -> u32 {
        self.day
    }

    /// The date with the given year, month and day, if that day exists.
    pub fn from_ymd(year: i32, month: u32, day: u32) -> (date: Option<Date>)
        ensures
            match date {
                Some(d) => valid_calendar_date(year as int, month as int, day as int)
                    && d.year_of() == year && d.month_of() == month && d.day_of() == day,
                None => !valid_calendar_date(year as int, month as int, day as int),
            },
    {
        if calendar_date_exists(year, month, day) {
            Some(Date { year, month, day })
        } else {
            None
        }
    }

    /// The date that the database text of a date is read as, with the
    /// format `%Y-%m-%d`.
    pub fn parse(text: &str) -> (date: Option<Date>)
        ensures
            match (date, parsed_date(text@)) {
                (Some(d), Some((y, m, day))) => d.year_of() == y && d.month_of() == m
                    && d.day_of() == day,
                (None, None) => true,
                _ => false,
            },
            forall|y: i32, m: u32, d: u32|
                valid_calendar_date(y as int, m as int, d as int) && text@ == #[trigger] date_text_of(
                    y as int,
                    m as int,
                    d as int,
                ) ==> (date matches Some(found) && found.year_of() == y && found.month_of() == m
                    && found.day_of() == d),
    {
        match parse_ymd(text) {
            Some((year, month, day)) => Some(Date { year, month, day }),
            None => None,
        }
    }

    /// The year of the date.
    pub fn year(&self) -> (year: i32)
        ensures
            year == self.year_of(),
            valid_calendar_date(self.year_of() as int, self.month_of() as int, self.day_of() as int),
    {
        proof {
            use_type_invariant(self);
        }
        self.year
    }

    /// The month of the date, 1 to 12.
    pub fn month(&self) -> (month: u32)
        ensures
            month == self.month_of(),
            1 <= month <= 12,
    {
        proof {
            use_type_invariant(self);
        }
        self.month
    }

    /// The day of the month.
    pub fn day(&self) -> (day: u32)
        ensures
            day == self.day_of(),
            1 <= day <= 31,
    {
        proof {
            use_type_invariant(self);
        }
        self.day
    }

    /// The text in which the database stores the date: `YYYY-MM-DD` for
    /// years 0 to 9999.
    pub fn text(&self) -> (text: String)
        ensures
            text@ == date_text_of(self.year_of() as int, self.month_of() as int, self.day_of() as int),
    {
        proof {
            use_type_invariant(self);
        }
        ymd_text(self.year, self.month, self.day)
    }
}

/// The RFC 3339 text of an instant given as seconds and nanoseconds after
/// the Unix epoch; `None` when it is out of range.
pub fn instant_text(secs: i64, nanos: u32) -> (text: Option<String>)
    ensures
        match (text, rfc3339_at(secs, nanos)) {
            (Some(t), Some(expected)) => t@ == expected,
            (None, None) => true,
            _ => false,
        },
{
    rfc3339_text(secs, nanos)
}

/// When a session that starts at the given instant expires: ten days
/// later, as RFC 3339 text. `None` when that instant is out of range.
pub fn session_expiry(now_secs: i64, now_nanos: u32) -> (expiry: Option<String>)
    ensures
        now_secs + SESSION_LIFETIME_SECS <= i64::MAX ==> match (expiry, rfc3339_at(
            (now_secs + SESSION_LIFETIME_SECS) as i64,
            now_nanos,
        )) {
            (Some(t), Some(expected)) => t@ == expected,
            (None, None) => true,
            _ => false,
        },
        now_secs + SESSION_LIFETIME_SECS > i64::MAX ==> expiry is None,
{
    match now_secs.checked_add(SESSION_LIFETIME_SECS) {
        Some(secs) => rfc3339_text(secs, now_nanos),
        None => None,
    }
}

} // verus!
