//! The moment a test suite ran, in UTC.

use crate::decimal::{fraction, padded, push_fraction, push_padded};
use vstd::prelude::*;
use vstd::string::*;

verus! {

/// A moment by its calendar fields.
pub struct TimestampView {
    pub year: nat,
    pub month: nat,
    pub day: nat,
    pub hour: nat,
    pub minute: nat,
    pub second: nat,
    pub nanosecond: nat,
}

/// The given calendar fields together.
pub open spec fn calendar(
    year: nat,
    month: nat,
    day: nat,
    hour: nat,
    minute: nat,
    second: nat,
    nanosecond: nat,
) -> TimestampView {
    TimestampView { year, month, day, hour, minute, second, nanosecond }
}

/// Whether a year of the Gregorian calendar has a 29th of February.
pub open spec fn is_leap_year(year: nat) -> bool {
    year % 4 == 0 && (year % 100 != 0 || year % 400 == 0)
}

/// The days of a month of a year; 0 where there is no such month.
pub open spec fn days_in_month(year: nat, month: nat) -> nat {
    if month == 1 || month == 3 || month == 5 || month == 7 || month == 8 || month == 10 || month
        == 12 {
        31
    } else if month == 4 || month == 6 || month == 9 || month == 11 {
        30
    } else if month == 2 {
        if is_leap_year(year) {
            29
        } else {
            28
        }
    } else {
        0
    }
}

/// Whether the fields are those of a moment that RFC 3339 can name: a day
/// of the calendar in a year of four digits, and a time of that day.
pub open spec fn is_moment(t: TimestampView) -> bool {
    &&& t.year <= 9999
    &&& 1 <= t.day <= days_in_month(t.year, t.month)
    &&& t.hour < 24
    &&& t.minute < 60
    &&& t.second < 60
    &&& t.nanosecond < 1_000_000_000
}

/// A moment in RFC 3339, in UTC: `2018-04-21T12:02:00Z`, with the fraction
/// of the second before the `Z` where there is one.
pub open spec fn rfc3339(t: TimestampView) -> Seq<char> {
    padded(t.year, 4) + "-"@ + padded(t.month, 2) + "-"@ + padded(t.day, 2) + "T"@ + padded(
        t.hour,
        2,
    ) + ":"@ + padded(t.minute, 2) + ":"@ + padded(t.second, 2) + fraction(t.nanosecond) + "Z"@
}

/// The first moment of 1970.
pub open spec fn unix_epoch() -> TimestampView {
    calendar(1970, 1, 1, 0, 0, 0, 0)
}

/// The moment that the reading of a clock stands for: the reading itself
/// where its fields are those of a moment, else the first moment of 1970.
pub open spec fn moment_of_reading(
    year: int,
    month: nat,
    day: nat,
    hour: nat,
    minute: nat,
    second: nat,
    nanosecond: nat,
) -> TimestampView {
    let read = calendar(year as nat, month, day, hour, minute, second, nanosecond);
    if year >= 0 && is_moment(read) {
        read
    } else {
        unix_epoch()
    }
}

/// A moment in UTC, exact to the nanosecond, that RFC 3339 can name.
#[derive(Clone, Copy, Debug, PartialEq, Eq, Structural, PartialOrd, Ord, Hash)]
pub struct Timestamp {
    year: u16,
    month: u8,
    day: u8,
    hour: u8,
    minute: u8,
    second: u8,
    nanosecond: u32,
}

impl View for Timestamp {
    type V = TimestampView;

    closed spec fn view(&self) -> TimestampView {
        TimestampView {
            year: self.year as nat,
            month: self.month as nat,
            day: self.day as nat,
            hour: self.hour as nat,
            minute: self.minute as nat,
            second: self.second as nat,
            nanosecond: self.nanosecond as nat,
        }
    }
}

/// The days of a month of a year; 0 where there is no such month.
pub fn month_length(year: u16, month: u8) -> (days: u8)
    ensures
        days as nat == days_in_month(year as nat, month as nat),
{
    if month == 1 || month == 3 || month == 5 || month == 7 || month == 8 || month == 10 || month
        == 12 {
        31
    } else if month == 4 || month == 6 || month == 9 || month == 11 {
        30
    } else if month == 2 {
        if year % 4 == 0 && (year % 100 != 0 || year % 400 == 0) {
            29
        } else {
            28
        }
    } else {
        0
    }
}

/// The system clock in UTC, read through `time::OffsetDateTime::now_utc`
/// and handed out as the calendar fields that the getters of
/// `OffsetDateTime` give: year, month as a number, day, hour, minute,
/// second, nanosecond. Nothing is claimed of what was read.
#[verifier::external_body]
fn read_clock() -> (reading: (i32, u8, u8, u8, u8, u8, u32)) {
    let now = time::OffsetDateTime::now_utc();
    (
        now.year(),
        u8::from(now.month()),
        now.day(),
        now.hour(),
        now.minute(),
        now.second(),
        now.nanosecond(),
    )
}

impl Timestamp {
    #[verifier::type_invariant]
    spec fn well_formed(self) -> bool {
        is_moment(self@)
    }

    /// The moment of the given calendar fields, where there is one.
    pub fn new(year: i32, month: u8, day: u8, hour: u8, minute: u8, second: u8) -> (t: Option<
        Timestamp,
    >)
        ensures
            t is Some <==> year >= 0 && is_moment(
                calendar(
                    year as nat,
                    month as nat,
                    day as nat,
                    hour as nat,
                    minute as nat,
                    second as nat,
                    0,
                ),
            ),
            t matches Some(t) ==> t@ == calendar(
                year as nat,
                month as nat,
                day as nat,
                hour as nat,
                minute as nat,
                second as nat,
                0,
            ),
    {
        Timestamp::with_nanosecond(year, month, day, hour, minute, second, 0)
    }

    /// The moment of the given calendar fields, to the nanosecond, where
    /// there is one.
    pub fn with_nanosecond(
        year: i32,
        month: u8,
        day: u8,
        hour: u8,
        minute: u8,
        second: u8,
        nanosecond: u32,
    ) -> (t: Option<Timestamp>)
        ensures
            t is Some <==> year >= 0 && is_moment(
                calendar(
                    year as nat,
                    month as nat,
                    day as nat,
                    hour as nat,
                    minute as nat,
                    second as nat,
                    nanosecond as nat,
                ),
            ),
            t matches Some(t) ==> t@ == calendar(
                year as nat,
                month as nat,
                day as nat,
                hour as nat,
                minute as nat,
                second as nat,
                nanosecond as nat,
            ),
    {
        if year < 0 || year > 9999 {
            return None;
        }
        let year: u16 = year as u16;
        if day < 1 || day > month_length(year, month) {
            return None;
        }
        if hour >= 24 || minute >= 60 || second >= 60 || nanosecond >= 1_000_000_000 {
            return None;
        }
        Some(Timestamp { year, month, day, hour, minute, second, nanosecond })
    }

    /// The first moment of 1970.
    pub fn unix_epoch() -> (t: Timestamp)
        ensures
            t@ == unix_epoch(),
    {
        Timestamp { year: 1970, month: 1, day: 1, hour: 0, minute: 0, second: 0, nanosecond: 0 }
    }

    /// The moment that a reading of a clock stands for.
    pub fn from_reading(
        year: i32,
        month: u8,
        day: u8,
        hour: u8,
        minute: u8,
        second: u8,
        nanosecond: u32,
    ) -> (t: Timestamp)
        ensures
            t@ == moment_of_reading(
                year as int,
                month as nat,
                day as nat,
                hour as nat,
                minute as nat,
                second as nat,
                nanosecond as nat,
            ),
            is_moment(t@),
    {
        match Timestamp::with_nanosecond(year, month, day, hour, minute, second, nanosecond) {
            Some(t) => t,
            None => Timestamp::unix_epoch(),
        }
    }

    /// The moment that the system clock shows, in UTC.
    pub fn now_utc() -> (t: Timestamp)
        ensures
            is_moment(t@),
    {
        let (year, month, day, hour, minute, second, nanosecond) = read_clock();
        Timestamp::from_reading(year, month, day, hour, minute, second, nanosecond)
    }

    /// The year, from 0 to 9999.
    pub fn year(&self) -> (year: u16)
        ensures
            year as nat == self@.year,
            year <= 9999,
    {
        proof {
            use_type_invariant(self);
        }
        self.year
    }

    /// The month, from 1 to 12.
    pub fn month(&self) -> (month: u8)
        ensures
            month as nat == self@.month,
            1 <= month <= 12,
    {
        proof {
            use_type_invariant(self);
        }
        self.month
    }

    /// The day of the month, from 1.
    pub fn day(&self) -> (day: u8)
        ensures
            day as nat == self@.day,
            1 <= day <= 31,
    {
        proof {
            use_type_invariant(self);
        }
        self.day
    }

    /// The hour, from 0 to 23.
    pub fn hour(&self) -> (hour: u8)
        ensures
            hour as nat == self@.hour,
            hour < 24,
    {
        proof {
            use_type_invariant(self);
        }
        self.hour
    }

    /// The minute, from 0 to 59.
    pub fn minute(&self) -> (minute: u8)
        ensures
            minute as nat == self@.minute,
            minute < 60,
    {
        proof {
            use_type_invariant(self);
        }
        self.minute
    }

    /// The second, from 0 to 59.
    pub fn second(&self) -> (second: u8)
        ensures
            second as nat == self@.second,
            second < 60,
    {
        proof {
            use_type_invariant(self);
        }
        self.second
    }

    /// The nanosecond of the second.
    pub fn nanosecond(&self) -> (nanosecond: u32)
        ensures
            nanosecond as nat == self@.nanosecond,
            nanosecond < 1_000_000_000,
    {
        proof {
            use_type_invariant(self);
        }
        self.nanosecond
    }

    /// The moment in RFC 3339.
    pub fn to_rfc3339(&self) -> (text: String)
        ensures
            text@ == rfc3339(self@),
            is_moment(self@),
    {
        proof {
            use_type_invariant(self);
        }
        let mut text = String::new();
        push_padded(&mut text, self.year as u128, 4);
        text.append("-");
        push_padded(&mut text, self.month as u128, 2);
        text.append("-");
        push_padded(&mut text, self.day as u128, 2);
        text.append("T");
        push_padded(&mut text, self.hour as u128, 2);
        text.append(":");
        push_padded(&mut text, self.minute as u128, 2);
        text.append(":");
        push_padded(&mut text, self.second as u128, 2);
        push_fraction(&mut text, self.nanosecond);
        text.append("Z");
        assert(text@ =~= rfc3339(self@));
        text
    }
}

} // verus!
