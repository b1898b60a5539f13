//! Dates and times of day: plain numbers that name a day or a moment
//! that exists, and their text in ISO 8601.

use vstd::prelude::*;
use sqlx::types::chrono::{FixedOffset, NaiveDate, NaiveTime, TimeZone};
use crate::text::{fixed_text, nat_text, two_digit_text};

verus! {

/// True for a leap year of the proleptic Gregorian calendar.
pub open spec fn leap_year(year: int) -> bool {
    year % 4 == 0 && (year % 100 != 0 || year % 400 == 0)
}

/// The number of days of a month.
pub open spec fn days_in_month(year: int, month: int) -> int {
    if month == 2 {
        if leap_year(year) {
            29
        } else {
            28
        }
    } else if month == 4 || month == 6 || month == 9 || month == 11 {
        30
    } else {
        31
    }
}

/// True where the calendar has the day and the year is one that a date
/// can hold.
pub open spec fn date_exists(year: int, month: int, day: int) -> bool {
    -262_143 <= year <= 262_142 && 1 <= month <= 12 && 1 <= day <= days_in_month(year, month)
}

/// True where the day has the time. A nanosecond of a thousand million or
/// more stands for a leap second, which only follows second 59.
pub open spec fn time_exists(hour: int, minute: int, second: int, nanosecond: int) -> bool {
    0 <= hour < 24 && 0 <= minute < 60 && 0 <= second < 60 && 0 <= nanosecond < 2_000_000_000 && (
    nanosecond >= 1_000_000_000 ==> second == 59)
}

/// True for an offset from UTC of less than a day.
pub open spec fn offset_exists(seconds: int) -> bool {
    -86_400 < seconds < 86_400
}

/// True for a year with a year before it and a year after it, so that a
/// moment of it is in a year that exists at every offset.
pub open spec fn inner_year(year: int) -> bool {
    -262_143 < year < 262_142
}

/// The year of a date: four digits from 0 to 9999, else a sign and at
/// least four digits.
pub open spec fn year_text(year: int) -> Seq<char> {
    if 0 <= year <= 9999 {
        fixed_text(year as nat, 4)
    } else if year > 9999 {
        "+"@ + nat_text(year as nat)
    } else if year > -10000 {
        "-"@ + fixed_text((-year) as nat, 4)
    } else {
        "-"@ + nat_text((-year) as nat)
    }
}

/// A date as `YYYY-MM-DD`.
pub open spec fn date_text(year: int, month: int, day: int) -> Seq<char> {
    year_text(year) + "-"@ + two_digit_text(month as nat) + "-"@ + two_digit_text(day as nat)
}

/// The fraction of a second: nothing for none, else three, six or nine
/// digits, as few as hold it.
pub open spec fn fraction_text(nanosecond: int) -> Seq<char> {
    if nanosecond == 0 {
        Seq::empty()
    } else if nanosecond % 1_000_000 == 0 {
        "."@ + fixed_text((nanosecond / 1_000_000) as nat, 3)
    } else if nanosecond % 1_000 == 0 {
        "."@ + fixed_text((nanosecond / 1_000) as nat, 6)
    } else {
        "."@ + fixed_text(nanosecond as nat, 9)
    }
}

/// A time of day as `HH:MM:SS` with the fraction of the second; a leap
/// second is second 60.
pub open spec fn time_text(hour: int, minute: int, second: int, nanosecond: int) -> Seq<char> {
    let leap = nanosecond >= 1_000_000_000;
    two_digit_text(hour as nat) + ":"@ + two_digit_text(minute as nat) + ":"@ + two_digit_text(
        (if leap {
            second + 1
        } else {
            second
        }) as nat,
    ) + fraction_text(
        if leap {
            nanosecond - 1_000_000_000
        } else {
            nanosecond
        },
    )
}

/// An offset from UTC as `+HH:MM` or `-HH:MM`, to the nearest minute.
pub open spec fn offset_text(seconds: int) -> Seq<char> {
    let magnitude: int = if seconds < 0 {
        -seconds
    } else {
        seconds
    };
    let minutes: int = (magnitude + 30) / 60;
    (if seconds < 0 {
        "-"@
    } else {
        "+"@
    }) + two_digit_text((minutes / 60) as nat) + ":"@ + two_digit_text((minutes % 60) as nat)
}

/// A calendar date that exists.
#[derive(Clone, Copy, Debug, PartialEq, Eq)]
pub struct Date {
    year: i32,
    month: u8,
    day: u8,
}

/// A time of day that exists.
#[derive(Clone, Copy, Debug, PartialEq, Eq)]
pub struct Time {
    hour: u8,
    minute: u8,
    second: u8,
    nanosecond: u32,
}

/// A date with a time of day, without a time zone.
#[derive(Clone, Copy, Debug, PartialEq, Eq)]
pub struct DateTime {
    pub date: Date,
    pub time: Time,
}

/// A date and time of day as a clock shows them at a fixed offset from
/// UTC, in seconds east.
#[derive(Clone, Copy, Debug, PartialEq, Eq)]
pub struct OffsetDateTime {
    date_time: DateTime,
    offset_seconds: i32,
}

/// A time of day at a fixed offset from UTC, in seconds east.
#[derive(Clone, Copy, Debug, PartialEq, Eq)]
pub struct TimeTz {
    time: Time,
    offset_seconds: i32,
}

/// The text of `NaiveDate::from_ymd_opt(..)` of chrono, as its `Display`
/// writes it; none where chrono has no such date. The contract says which
/// dates chrono has (the days of the proleptic Gregorian calendar in the
/// years from -262143 to 262142) and how it writes one: year, month and
/// day with hyphens between, the year with a sign outside 0 to 9999.
#[verifier::external_body]
fn date_string(year: i32, month: u8, day: u8) -> (out: Option<String>)
    ensures
        out is Some <==> date_exists(year as int, month as int, day as int),
        out matches Some(s) ==> s@ == date_text(year as int, month as int, day as int),
{
    match NaiveDate::from_ymd_opt(year, u32::from(month), u32::from(day)) {
        Some(date) => Some(date.to_string()),
        None => None,
    }
}

/// The text of `NaiveTime::from_hms_nano_opt(..)` of chrono, as its
/// `Display` writes it; none where chrono has no such time. The contract
/// says which times chrono has and how it writes one: hour, minute and
/// second with colons between, then the fraction in three, six or nine
/// digits.
#[verifier::external_body]
fn time_string(hour: u8, minute: u8, second: u8, nanosecond: u32) -> (out: Option<String>)
    ensures
        out is Some <==> time_exists(hour as int, minute as int, second as int, nanosecond as int),
        out matches Some(s) ==> s@ == time_text(
            hour as int,
            minute as int,
            second as int,
            nanosecond as int,
        ),
{
    match NaiveTime::from_hms_nano_opt(
        u32::from(hour),
        u32::from(minute),
        u32::from(second),
        nanosecond,
    ) {
        Some(time) => Some(time.to_string()),
        None => None,
    }
}

/// The text that `DateTime::to_rfc3339` of chrono gives the moment at
/// which a clock at the offset shows the date and time; none where
/// chrono has no such moment. The contract says that chrono has the
/// moment where it has the date, the time and the offset, and the offset
/// is zero or the year is an inner one; and that the text is the date,
/// `T`, the time and the offset.
#[verifier::external_body]
fn rfc3339_string(at: &DateTime, offset_seconds: i32) -> (out: Option<String>)
    ensures
        out is Some ==> at.is_real() && offset_exists(offset_seconds as int),
        at.is_real() && offset_exists(offset_seconds as int) && (offset_seconds == 0 || inner_year(
            at.date.year() as int,
        )) ==> out is Some,
        out matches Some(s) ==> s@ == at.text() + offset_text(offset_seconds as int),
{
    let date = NaiveDate::from_ymd_opt(at.date.year, u32::from(at.date.month), u32::from(at.date.day))?;
    let time = NaiveTime::from_hms_nano_opt(
        u32::from(at.time.hour),
        u32::from(at.time.minute),
        u32::from(at.time.second),
        at.time.nanosecond,
    )?;
    let offset = FixedOffset::east_opt(offset_seconds)?;
    Some(offset.from_local_datetime(&date.and_time(time)).single()?.to_rfc3339())
}

impl Date {
    #[verifier::type_invariant]
    spec fn on_the_calendar(self) -> bool {
        date_exists(self.year as int, self.month as int, self.day as int)
    }

    /// The year.
    pub closed spec fn spec_year(&self) -> i32 {
        self.year
    }

    /// The month, from 1.
    pub closed spec fn spec_month(&self) -> u8 {
        self.month
    }

    /// The day of the month, from 1.
    pub closed spec fn spec_day(&self) -> u8 {
        self.day
    }

    /// True where the calendar has the date.
    pub open spec fn is_real(self) -> bool {
        date_exists(self.year() as int, self.month() as int, self.day() as int)
    }

    /// The date as `YYYY-MM-DD`.
    pub open spec fn text(self) -> Seq<char> {
        date_text(self.year() as int, self.month() as int, self.day() as int)
    }

    /// The date of the year, month and day, where the calendar has it.
    pub fn new(year: i32, month: u8, day: u8) -> (r: Option<Date>)
        ensures
            r is Some <==> date_exists(year as int, month as int, day as int),
            r matches Some(d) ==> d.year() == year && d.month() == month && d.day() == day,
    {
        match date_string(year, month, day) {
            Some(_) => Some(Date { year, month, day }),
            None => None,
        }
    }

    /// The year.
    #[verifier::when_used_as_spec(spec_year)]
    pub fn year(&self) -> (y: i32)
        ensures
            y == self.year(),
            self.is_real(),
    {
        proof {
            use_type_invariant(self);
        }
        self.year
    }

    /// The month, from 1.
    #[verifier::when_used_as_spec(spec_month)]
    pub fn month(&self) -> (m: u8)
        ensures
            m == self.month(),
            self.is_real(),
    {
        proof {
            use_type_invariant(self);
        }
        self.month
    }

    /// The day of the month, from 1.
    #[verifier::when_used_as_spec(spec_day)]
    pub fn day(&self) -> (d: u8)
        ensures
            d == self.day(),
            self.is_real(),
    {
        proof {
            use_type_invariant(self);
        }
        self.day
    }

    /// The date as `YYYY-MM-DD`.
    pub fn to_text(&self) -> (out: String)
        ensures
            out@ == self.text(),
    {
        proof {
            use_type_invariant(self);
        }
        match date_string(self.year, self.month, self.day) {
            Some(s) => s,
            None => vstd::pervasive::unreached(),
        }
    }
}

impl Time {
    #[verifier::type_invariant]
    spec fn on_the_clock(self) -> bool {
        time_exists(self.hour as int, self.minute as int, self.second as int, self.nanosecond as int)
    }

    /// The hour.
    pub closed spec fn spec_hour(&self) -> u8 {
        self.hour
    }

    /// The minute.
    pub closed spec fn spec_minute(&self) -> u8 {
        self.minute
    }

    /// The second.
    pub closed spec fn spec_second(&self) -> u8 {
        self.second
    }

    /// The nanosecond; a thousand million or more in a leap second.
    pub closed spec fn spec_nanosecond(&self) -> u32 {
        self.nanosecond
    }

    /// True where the day has the time.
    pub open spec fn is_real(self) -> bool {
        time_exists(
            self.hour() as int,
            self.minute() as int,
            self.second() as int,
            self.nanosecond() as int,
        )
    }

    /// The time as `HH:MM:SS` with the fraction of the second.
    pub open spec fn text(self) -> Seq<char> {
        time_text(
            self.hour() as int,
            self.minute() as int,
            self.second() as int,
            self.nanosecond() as int,
        )
    }

    /// The time of the hour, minute, second and nanosecond, where the day
    /// has it.
    pub fn new(hour: u8, minute: u8, second: u8, nanosecond: u32) -> (r: Option<Time>)
        ensures
            r is Some <==> time_exists(
                hour as int,
                minute as int,
                second as int,
                nanosecond as int,
            ),
            r matches Some(t) ==> t.hour() == hour && t.minute() == minute && t.second() == second
                && t.nanosecond() == nanosecond,
    {
        match time_string(hour, minute, second, nanosecond) {
            Some(_) => Some(Time { hour, minute, second, nanosecond }),
            None => None,
        }
    }

    /// The hour.
    #[verifier::when_used_as_spec(spec_hour)]
    pub fn hour(&self) -> (h: u8)
        ensures
            h == self.hour(),
            self.is_real(),
    {
        proof {
            use_type_invariant(self);
        }
        self.hour
    }

    /// The minute.
    #[verifier::when_used_as_spec(spec_minute)]
    pub fn minute(&self) -> (m: u8)
        ensures
            m == self.minute(),
            self.is_real(),
    {
        proof {
            use_type_invariant(self);
        }
        self.minute
    }

    /// The second.
    #[verifier::when_used_as_spec(spec_second)]
    pub fn second(&self) -> (s: u8)
        ensures
            s == self.second(),
            self.is_real(),
    {
        proof {
            use_type_invariant(self);
        }
        self.second
    }

    /// The nanosecond; a thousand million or more in a leap second.
    #[verifier::when_used_as_spec(spec_nanosecond)]
    pub fn nanosecond(&self) -> (n: u32)
        ensures
            n == self.nanosecond(),
            self.is_real(),
    {
        proof {
            use_type_invariant(self);
        }
        self.nanosecond
    }

    /// The time as `HH:MM:SS` with the fraction of the second.
    pub fn to_text(&self) -> (out: String)
        ensures
            out@ == self.text(),
    {
        proof {
            use_type_invariant(self);
        }
        match time_string(self.hour, self.minute, self.second, self.nanosecond) {
            Some(s) => s,
            None => vstd::pervasive::unreached(),
        }
    }
}

impl DateTime {
    /// True where the calendar has the date and the day has the time.
    pub open spec fn is_real(self) -> bool {
        self.date.is_real() && self.time.is_real()
    }

    /// The date and the time of day, with `T` between them.
    pub open spec fn text(self) -> Seq<char> {
        self.date.text() + "T"@ + self.time.text()
    }

    /// The date and the time of day as a moment of UTC.
    pub open spec fn utc_text(self) -> Seq<char> {
        self.text() + offset_text(0)
    }

    /// The date and the time of day, with `T` between them.
    pub fn to_text(&self) -> (out: String)
        ensures
            out@ == self.text(),
    {
        let mut out = self.date.to_text();
        out.append("T");
        let time = self.time.to_text();
        out.append(time.as_str());
        assert(out@ =~= self.text());
        out
    }

    /// The date and the time of day as a moment of UTC.
    pub fn to_rfc3339(&self) -> (out: String)
        ensures
            out@ == self.utc_text(),
    {
        let _ = self.date.year();
        let _ = self.time.hour();
        match rfc3339_string(self, 0) {
            Some(s) => s,
            None => vstd::pervasive::unreached(),
        }
    }
}

impl OffsetDateTime {
    #[verifier::type_invariant]
    spec fn at_a_moment(self) -> bool {
        offset_exists(self.offset_seconds as int) && inner_year(self.date_time.date.year() as int)
    }

    /// What the clock shows.
    pub closed spec fn spec_date_time(&self) -> DateTime {
        self.date_time
    }

    /// The offset from UTC, in seconds east.
    pub closed spec fn spec_offset_seconds(&self) -> i32 {
        self.offset_seconds
    }

    /// The date, the time of day and the offset.
    pub open spec fn text(self) -> Seq<char> {
        self.date_time().text() + offset_text(self.offset_seconds() as int)
    }

    /// The moment at which a clock at the offset shows the date and time:
    /// for an offset of less than a day and a date that is not in the
    /// first or the last year.
    pub fn new(date_time: DateTime, offset_seconds: i32) -> (r: Option<OffsetDateTime>)
        ensures
            r is Some <==> offset_exists(offset_seconds as int) && inner_year(
                date_time.date.year() as int,
            ),
            r matches Some(at) ==> at.date_time() == date_time && at.offset_seconds()
                == offset_seconds,
    {
        let year = date_time.date.year();
        if -86_400 < offset_seconds && offset_seconds < 86_400 && -262_143 < year && year < 262_142 {
            Some(OffsetDateTime { date_time, offset_seconds })
        } else {
            None
        }
    }

    /// What the clock shows.
    #[verifier::when_used_as_spec(spec_date_time)]
    pub fn date_time(&self) -> (r: DateTime)
        ensures
            r == self.date_time(),
    {
        self.date_time
    }

    /// The offset from UTC, in seconds east.
    #[verifier::when_used_as_spec(spec_offset_seconds)]
    pub fn offset_seconds(&self) -> (r: i32)
        ensures
            r == self.offset_seconds(),
            offset_exists(r as int),
    {
        proof {
            use_type_invariant(self);
        }
        self.offset_seconds
    }

    /// The date, the time of day and the offset.
    pub fn to_rfc3339(&self) -> (out: String)
        ensures
            out@ == self.text(),
    {
        proof {
            use_type_invariant(self);
        }
        let _ = self.date_time.date.year();
        let _ = self.date_time.time.hour();
        match rfc3339_string(&self.date_time, self.offset_seconds) {
            Some(s) => s,
            None => vstd::pervasive::unreached(),
        }
    }
}

impl TimeTz {
    #[verifier::type_invariant]
    spec fn at_an_offset(self) -> bool {
        offset_exists(self.offset_seconds as int)
    }

    /// The time of day.
    pub closed spec fn spec_time(&self) -> Time {
        self.time
    }

    /// The offset from UTC, in seconds east.
    pub closed spec fn spec_offset_seconds(&self) -> i32 {
        self.offset_seconds
    }

    /// The time of day at the offset, for an offset of less than a day.
    pub fn new(time: Time, offset_seconds: i32) -> (r: Option<TimeTz>)
        ensures
            r is Some <==> offset_exists(offset_seconds as int),
            r matches Some(at) ==> at.time() == time && at.offset_seconds() == offset_seconds,
    {
        if -86_400 < offset_seconds && offset_seconds < 86_400 {
            Some(TimeTz { time, offset_seconds })
        } else {
            None
        }
    }

    /// The time of day.
    #[verifier::when_used_as_spec(spec_time)]
    pub fn time(&self) -> (r: Time)
        ensures
            r == self.time(),
    {
        self.time
    }

    /// The offset from UTC, in seconds east.
    #[verifier::when_used_as_spec(spec_offset_seconds)]
    pub fn offset_seconds(&self) -> (r: i32)
        ensures
            r == self.offset_seconds(),
            offset_exists(r as int),
    {
        proof {
            use_type_invariant(self);
        }
        self.offset_seconds
    }
}

} // verus!
