//! Calendar date and time without a time zone, read as UTC.

use chrono::{Datelike, NaiveDate, TimeDelta, Timelike, Utc};
use vstd::prelude::*;

verus! {

/// A date of the proleptic Gregorian calendar and a time of day. A leap second
/// is second 59 with a `nano` of 1,000,000,000 or more.
#[derive(Debug, Clone, Copy, PartialEq, Eq, Structural)]
pub struct CivilDateTime {
    pub year: i32,
    pub month: u32,
    pub day: u32,
    pub hour: u32,
    pub minute: u32,
    pub second: u32,
    pub nano: u32,
}

/// Whether a year has a 29th of February.
pub open spec fn is_leap_year(year: int) -> bool {
    year % 4 == 0 && (year % 100 != 0 || year % 400 == 0)
}

/// How many days a month has.
pub open spec fn days_in_month(year: int, month: int) -> int {
    if month == 2 {
        if is_leap_year(year) {
            29
        } else {
            28
        }
    } else if month == 4 || month == 6 || month == 9 || month == 11 {
        30
    } else {
        31
    }
}

/// How many days of a year lie before the first of a month.
pub open spec fn days_before_month(year: int, month: int) -> int
    decreases month,
{
    if month <= 1 {
        0
    } else {
        days_before_month(year, month - 1) + days_in_month(year, month - 1)
    }
}

/// How many days lie between 31 December of the year 0 and a date.
pub open spec fn day_number(year: int, month: int, day: int) -> int {
    let before = year - 1;
    365 * before + before / 4 - before / 100 + before / 400 + days_before_month(year, month) + day
}

/// The number of 1 January 1970.
pub open spec fn epoch_day() -> int {
    719_163
}

impl CivilDateTime {
    /// Whether this is a date and time of the calendar, in the range of years
    /// that the calendar arithmetic covers.
    pub open spec fn valid(self) -> bool {
        &&& -262_143 <= self.year <= 262_142
        &&& 1 <= self.month <= 12
        &&& 1 <= self.day <= days_in_month(self.year as int, self.month as int)
        &&& self.hour < 24
        &&& self.minute < 60
        &&& self.second < 60
        &&& self.nano < 2_000_000_000
        &&& self.nano >= 1_000_000_000 ==> self.second == 59
    }

    /// Whether this is valid and no leap second.
    pub open spec fn regular(self) -> bool {
        self.valid() && self.nano < 1_000_000_000
    }

    /// Seconds since 1970-01-01 00:00:00 UTC, leap seconds not counted.
    pub open spec fn unix_seconds(self) -> int {
        (day_number(self.year as int, self.month as int, self.day as int) - epoch_day()) * 86_400
            + self.hour * 3_600 + self.minute * 60 + self.second
    }

    /// Nanoseconds since 1970-01-01 00:00:00 UTC, leap seconds not counted.
    pub open spec fn unix_nanos(self) -> int {
        self.unix_seconds() * 1_000_000_000 + self.nano
    }

    /// `chrono::DateTime::<Utc>::timestamp` of this date and time read as UTC:
    /// the seconds since 1970, by the rules of the Gregorian calendar.
    #[verifier::external_body]
    pub(crate) fn timestamp(&self) -> (seconds: i64)
        requires
            self.valid(),
        ensures
            seconds == self.unix_seconds(),
    {
        let date = NaiveDate::from_ymd_opt(self.year, self.month, self.day).unwrap();
        let time = date.and_hms_nano_opt(self.hour, self.minute, self.second, self.nano).unwrap();
        time.and_utc().timestamp()
    }

    /// `chrono::DateTime::<Utc>::timestamp_subsec_nanos` of this date and time
    /// read as UTC: the nanoseconds since the last full second.
    #[verifier::external_body]
    pub(crate) fn timestamp_subsec_nanos(&self) -> (nanos: u32)
        requires
            self.valid(),
        ensures
            nanos == self.nano,
    {
        let date = NaiveDate::from_ymd_opt(self.year, self.month, self.day).unwrap();
        let time = date.and_hms_nano_opt(self.hour, self.minute, self.second, self.nano).unwrap();
        time.and_utc().timestamp_subsec_nanos()
    }

    /// `chrono::NaiveDateTime::checked_add_signed` with a number of milliseconds:
    /// the date and time that much later, or nothing where that lies beyond the
    /// range of years.
    #[verifier::external_body]
    pub(crate) fn plus_milliseconds(&self, milliseconds: i64) -> (sum: Option<CivilDateTime>)
        requires
            self.regular(),
            milliseconds >= 0,
        ensures
            sum is Some <==> self.unix_nanos() + milliseconds * 1_000_000
                <= latest_date_time().unix_nanos(),
            sum is Some ==> sum->0.regular(),
            sum is Some ==> sum->0.unix_nanos() == self.unix_nanos() + milliseconds * 1_000_000,
    {
        let date = NaiveDate::from_ymd_opt(self.year, self.month, self.day).unwrap();
        let time = date.and_hms_nano_opt(self.hour, self.minute, self.second, self.nano).unwrap();
        time.checked_add_signed(TimeDelta::milliseconds(milliseconds)).map(from_chrono)
    }

    /// Whether this lies before `other` in time; a leap second lies between the
    /// second before it and the second after it.
    pub open spec fn precedes(self, other: CivilDateTime) -> bool {
        ||| self.unix_seconds() < other.unix_seconds()
        ||| self.unix_seconds() == other.unix_seconds() && self.nano < other.nano
    }

    /// Whether this lies before `other` in time.
    pub fn is_before(&self, other: &CivilDateTime) -> (before: bool)
        requires
            self.valid(),
            other.valid(),
        ensures
            before == self.precedes(*other),
    {
        let own = self.timestamp();
        let theirs = other.timestamp();
        own < theirs || (own == theirs && self.nano < other.nano)
    }
}

/// The last date and time of the range of years.
pub open spec fn latest_date_time() -> CivilDateTime {
    CivilDateTime {
        year: 262_142,
        month: 12,
        day: 31,
        hour: 23,
        minute: 59,
        second: 59,
        nano: 999_999_999,
    }
}

/// The last date and time is one of the calendar, and lies after 1970.
pub proof fn lemma_latest_is_regular()
    ensures
        latest_date_time().regular(),
        latest_date_time().unix_seconds() >= 0,
{
    reveal_with_fuel(days_before_month, 13);
}

#[verifier::external_type_specification]
#[verifier::external_body]
pub struct ExChronoDateTime(chrono::NaiveDateTime);

/// The fields of a `chrono::NaiveDateTime`. Nothing is claimed of it here; the
/// functions that call `chrono` say what the outcome is.
#[verifier::external_body]
fn from_chrono(time: chrono::NaiveDateTime) -> CivilDateTime {
    CivilDateTime {
        year: time.year(),
        month: time.month(),
        day: time.day(),
        hour: time.hour(),
        minute: time.minute(),
        second: time.second(),
        nano: time.nanosecond(),
    }
}

/// `chrono::Utc::now`: some date and time from 1970 on that is no leap second.
/// What the clock says is left open.
#[verifier::external_body]
pub(crate) fn utc_now() -> (now: CivilDateTime)
    ensures
        now.regular(),
        now.unix_seconds() >= 0,
{
    from_chrono(Utc::now().naive_utc())
}

/// One date lies before another exactly where fewer nanoseconds have passed before it,
/// as far as neither is a leap second; no two dates lie before each other; and of two
/// dates with different seconds or nanoseconds one lies before the other.
pub proof fn law_dates_are_ordered(a: CivilDateTime, b: CivilDateTime)
    ensures
        a.regular() && b.regular() ==> (a.precedes(b) <==> a.unix_nanos() < b.unix_nanos()),
        !(a.precedes(b) && b.precedes(a)),
        a.unix_seconds() < b.unix_seconds() ==> a.precedes(b),
        a.unix_seconds() == b.unix_seconds() && a.nano < b.nano ==> a.precedes(b),
        a.unix_seconds() == b.unix_seconds() && a.nano == b.nano ==> !a.precedes(b),
{
}

/// Days follow one another through every month and year, and seconds are counted from
/// the start of 1970.
pub proof fn law_days_follow_one_another(year: int, month: int, day: int)
    requires
        1 <= month,
    ensures
        day_number(year, month, day + 1) == day_number(year, month, day) + 1,
        day_number(year, month + 1, 1) == day_number(year, month, days_in_month(year, month)) + 1,
        day_number(year + 1, 1, 1) == day_number(year, 12, 31) + 1,
        day_number(1970, 1, 1) == epoch_day(),
{
    reveal_with_fuel(days_before_month, 13);
}

/// Of two times of one day the seconds between them are told by the clock, and from one
/// day to the next it is as many as a day has.
pub proof fn law_seconds_are_counted(a: CivilDateTime, b: CivilDateTime)
    ensures
        a.unix_seconds() - b.unix_seconds() == (day_number(
            a.year as int,
            a.month as int,
            a.day as int,
        ) - day_number(b.year as int, b.month as int, b.day as int)) * 24 * 60 * 60 + (a.hour
            - b.hour) * 60 * 60 + (a.minute - b.minute) * 60 + (a.second - b.second),
        a.unix_nanos() - b.unix_nanos() == (a.unix_seconds() - b.unix_seconds()) * 1_000_000_000
            + (a.nano - b.nano),
{
}

}
