//! Calendar dates and instants, rendered by the `chrono` crate.

use vstd::prelude::*;
use crate::text::{decimal, two_digits};

verus! {

/// The earliest year a date can have.
pub const MIN_YEAR: i32 = -262_143;

/// The latest year a date can have.
pub const MAX_YEAR: i32 = 262_142;

/// The farthest an instant can lie from the epoch, in seconds, either way.
pub const MAX_SECS: i64 = 8_000_000_000_000;

/// Whether `year` has a 29th of February in the proleptic Gregorian calendar.
pub open spec fn is_leap_year(year: int) -> bool {
    year % 4 == 0 && (year % 100 != 0 || year % 400 == 0)
}

/// The number of days of `month` in `year`.
pub open spec fn days_in_month(year: int, month: int) -> int {
    if month == 2 {
        if is_leap_year(year) {
            29
        } else {
            28
        }
    } else if month == 4 || month == 6 || month == 9 || month == 11 {
        30
    } else {
        31
    }
}

/// Whether the day exists in the calendar and its year is in range.
pub open spec fn is_calendar_date(year: int, month: int, day: int) -> bool {
    &&& MIN_YEAR <= year <= MAX_YEAR
    &&& 1 <= month <= 12
    &&& 1 <= day <= days_in_month(year, month)
}

/// A year as text: four digits from 0 to 9999; otherwise a sign and at least
/// four digits.
pub open spec fn year_text(year: int) -> Seq<char> {
    if 0 <= year <= 9999 {
        two_digits((year / 100) as nat) + two_digits((year % 100) as nat)
    } else if year > 9999 {
        seq!['+'] + decimal(year as nat)
    } else if year >= -9999 {
        seq!['-'] + two_digits((-year / 100) as nat) + two_digits((-year % 100) as nat)
    } else {
        seq!['-'] + decimal((-year) as nat)
    }
}

/// A date as text: year, month and day, joined by hyphens.
pub open spec fn date_text(year: int, month: int, day: int) -> Seq<char> {
    year_text(year) + seq!['-'] + two_digits(month as nat) + seq!['-'] + two_digits(day as nat)
}

/// Whether the three numbers describe an instant that can be rendered: the
/// seconds within `MAX_SECS` of the epoch, the nanoseconds below one second
/// (or below two in the last second of a minute, which stands for a leap
/// second), the offset from UTC below one day.
pub open spec fn is_instant(secs: int, nanos: int, offset: int) -> bool {
    &&& -MAX_SECS <= secs <= MAX_SECS
    &&& 0 <= nanos
    &&& nanos < 1_000_000_000 || (nanos < 2_000_000_000 && secs % 60 == 59)
    &&& -86_400 < offset < 86_400
}

/// The calendar date, as year, month and day, that `chrono` gives for the
/// instant `secs` seconds and `nanos` nanoseconds after the epoch, seen
/// `offset` seconds east of UTC.
pub uninterp spec fn civil_date(secs: i64, nanos: u32, offset: i32) -> (i32, u32, u32);

/// The RFC 3339 text that `chrono` writes for the instant `secs` seconds and
/// `nanos` nanoseconds after the epoch, seen `offset` seconds east of UTC.
pub uninterp spec fn rfc3339_text(secs: i64, nanos: u32, offset: i32) -> Seq<char>;

/// `NaiveDate::from_ymd_opt` followed by the date's `Display`.
///
/// Trusted: `from_ymd_opt` gives a date exactly for the days that exist in the
/// calendar with a year from `MIN_YEAR` to `MAX_YEAR`; `Display` then writes
/// the year (four digits from 0 to 9999, else a sign and at least four
/// digits), the month and the day, two digits each, joined by hyphens.
#[verifier::external_body]
fn chrono_date_text(year: i32, month: u32, day: u32) -> (r: Option<String>)
    ensures
        r is Some <==> is_calendar_date(year as int, month as int, day as int),
        r matches Some(s) ==> s@ == date_text(year as int, month as int, day as int),
{
    let date = chrono::NaiveDate::from_ymd_opt(year, month, day)?;
    Some(date.to_string())
}

/// `DateTime::date_naive` on the instant seen at the offset, read back through
/// `Datelike::year`, `month` and `day`.
///
/// Trusted: for an instant within the stated bounds `chrono` builds the
/// date-time (`DateTime::from_timestamp`, `FixedOffset::east_opt`,
/// `DateTime::with_timezone`), and the local date it gives, named
/// `civil_date`, is a day of the calendar. The bounds keep the local time
/// well inside the range of `chrono`'s dates, outside of which `date_naive`
/// panics.
#[verifier::external_body]
fn chrono_local_date(secs: i64, nanos: u32, offset: i32) -> (r: Option<(i32, u32, u32)>)
    requires
        is_instant(secs as int, nanos as int, offset as int),
    ensures
        r == Some(civil_date(secs, nanos, offset)),
        r matches Some(d) ==> is_calendar_date(d.0 as int, d.1 as int, d.2 as int),
{
    let utc = chrono::DateTime::from_timestamp(secs, nanos)?;
    let zone = chrono::FixedOffset::east_opt(offset)?;
    let date = utc.with_timezone(&zone).date_naive();
    Some((chrono::Datelike::year(&date), chrono::Datelike::month(&date), chrono::Datelike::day(&date)))
}

/// `DateTime::to_rfc3339` on the instant seen at the offset.
///
/// Trusted: for an instant within the stated bounds `chrono` builds the
/// date-time (`DateTime::from_timestamp`, `FixedOffset::east_opt`,
/// `DateTime::with_timezone`) and writes the text named `rfc3339_text`.
#[verifier::external_body]
fn chrono_rfc3339(secs: i64, nanos: u32, offset: i32) -> (r: Option<String>)
    ensures
        is_instant(secs as int, nanos as int, offset as int) ==> r is Some,
        r matches Some(s) ==> s@ == rfc3339_text(secs, nanos, offset),
{
    let utc = chrono::DateTime::from_timestamp(secs, nanos)?;
    let zone = chrono::FixedOffset::east_opt(offset)?;
    Some(utc.with_timezone(&zone).to_rfc3339())
}

/// A day of the proleptic Gregorian calendar.
#[derive(Clone, Copy, Debug, PartialEq, Eq)]
pub struct Date {
    year: i32,
    month: u32,
    day: u32,
}

impl Date {
    #[verifier::type_invariant]
    spec fn inv(&self) -> bool {
        is_calendar_date(self.year as int, self.month as int, self.day as int)
    }

    /// The year.
    pub closed spec fn spec_year(&self) -> i32 {
        self.year
    }

    /// The month, from 1.
    pub closed spec fn spec_month(&self) -> u32 {
        self.month
    }

    /// The day of the month, from 1.
    pub closed spec fn spec_day(&self) -> u32 {
        self.day
    }

    /// The date as text.
    pub open spec fn text_spec(&self) -> Seq<char> {
        date_text(self.year() as int, self.month() as int, self.day() as int)
    }

    /// The date of the given year, month and day, if that day exists.
    pub fn new(year: i32, month: u32, day: u32) -> (r: Option<Date>)
        ensures
            r is Some <==> is_calendar_date(year as int, month as int, day as int),
            r matches Some(d) ==> d.year() == year && d.month() == month && d.day() == day,
    {
        if year < MIN_YEAR || year > MAX_YEAR || month < 1 || month > 12 || day < 1 {
            return None;
        }
        let shifted: u32 = (year + 262_400) as u32;
        let leap = shifted % 4 == 0 && (shifted % 100 != 0 || shifted % 400 == 0);
        assert(leap == is_leap_year(year as int));
        let length: u32 = if month == 2 {
            if leap {
                29
            } else {
                28
            }
        } else if month == 4 || month == 6 || month == 9 || month == 11 {
            30
        } else {
            31
        };
        if day > length {
            None
        } else {
            Some(Date { year, month, day })
        }
    }

    /// The year.
    #[verifier::when_used_as_spec(spec_year)]
    pub fn year(&self) -> (r: i32)
        ensures
            r == self.year(),
    {
        self.year
    }

    /// The month, from 1.
    #[verifier::when_used_as_spec(spec_month)]
    pub fn month(&self) -> (r: u32)
        ensures
            r == self.month(),
    {
        self.month
    }

    /// The day of the month, from 1.
    #[verifier::when_used_as_spec(spec_day)]
    pub fn day(&self) -> (r: u32)
        ensures
            r == self.day(),
    {
        self.day
    }

    /// The date as text: year, month and day, joined by hyphens.
    pub fn text(&self) -> (s: String)
        ensures
            s@ == self.text_spec(),
    {
        proof {
            use_type_invariant(self);
        }
        match chrono_date_text(self.year, self.month, self.day) {
            Some(s) => s,
            // not reached: the day exists
            None => String::new(),
        }
    }
}

/// An instant, with the offset from UTC of the place where it was recorded.
#[derive(Clone, Copy, Debug, PartialEq, Eq)]
pub struct Timestamp {
    secs: i64,
    nanos: u32,
    offset: i32,
}

impl Timestamp {
    #[verifier::type_invariant]
    spec fn inv(&self) -> bool {
        is_instant(self.secs as int, self.nanos as int, self.offset as int)
    }

    /// Whole seconds since 1970-01-01T00:00:00Z.
    pub closed spec fn spec_secs(&self) -> i64 {
        self.secs
    }

    /// Nanoseconds since the last whole second.
    pub closed spec fn spec_nanos(&self) -> u32 {
        self.nanos
    }

    /// Seconds east of UTC.
    pub closed spec fn spec_offset(&self) -> i32 {
        self.offset
    }

    /// The local date of the instant.
    pub open spec fn date_spec(&self) -> (i32, u32, u32) {
        civil_date(self.secs(), self.nanos(), self.offset())
    }

    /// The RFC 3339 text of the instant.
    pub open spec fn rfc3339_spec(&self) -> Seq<char> {
        rfc3339_text(self.secs(), self.nanos(), self.offset())
    }

    /// The instant `secs` seconds and `nanos` nanoseconds after the epoch,
    /// recorded `offset` seconds east of UTC, if it can be rendered.
    pub fn new(secs: i64, nanos: u32, offset: i32) -> (r: Option<Timestamp>)
        ensures
            r is Some <==> is_instant(secs as int, nanos as int, offset as int),
            r matches Some(t) ==> t.secs() == secs && t.nanos() == nanos && t.offset() == offset,
    {
        if secs < -MAX_SECS || secs > MAX_SECS || offset <= -86_400 || offset >= 86_400 {
            return None;
        }
        let shifted: u64 = (secs + 8_000_000_000_040) as u64;
        let last_second = shifted % 60 == 59;
        assert(last_second == (secs as int % 60 == 59));
        if nanos < 1_000_000_000 || (nanos < 2_000_000_000 && last_second) {
            Some(Timestamp { secs, nanos, offset })
        } else {
            None
        }
    }

    /// Whole seconds since 1970-01-01T00:00:00Z.
    #[verifier::when_used_as_spec(spec_secs)]
    pub fn secs(&self) -> (r: i64)
        ensures
            r == self.secs(),
    {
        self.secs
    }

    /// Nanoseconds since the last whole second.
    #[verifier::when_used_as_spec(spec_nanos)]
    pub fn nanos(&self) -> (r: u32)
        ensures
            r == self.nanos(),
    {
        self.nanos
    }

    /// Seconds east of UTC.
    #[verifier::when_used_as_spec(spec_offset)]
    pub fn offset(&self) -> (r: i32)
        ensures
            r == self.offset(),
    {
        self.offset
    }

    /// The calendar date at the place where the instant was recorded.
    pub fn local_date(&self) -> (d: Date)
        ensures
            (d.year(), d.month(), d.day()) == self.date_spec(),
    {
        proof {
            use_type_invariant(self);
        }
        match chrono_local_date(self.secs, self.nanos, self.offset) {
            Some((year, month, day)) => Date { year, month, day },
            // not reached: the instant is within bounds
            None => Date { year: 1970, month: 1, day: 1 },
        }
    }

    /// The instant as RFC 3339 text, with its offset.
    pub fn rfc3339(&self) -> (s: String)
        ensures
            s@ == self.rfc3339_spec(),
    {
        proof {
            use_type_invariant(self);
        }
        match chrono_rfc3339(self.secs, self.nanos, self.offset) {
            Some(s) => s,
            // not reached: the instant is within bounds
            None => String::new(),
        }
    }
}

} // verus!
