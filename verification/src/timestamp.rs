//! Creation times: a calendar date and a time of day, with no time zone.

use crate::number::{decimal_digits, digit_char};
use chrono::{Local, NaiveDate, TimeZone};
use vstd::prelude::*;

verus! {

/// Two decimal digits, zero-padded.
pub open spec fn two_digits(n: int) -> Seq<char>
    recommends
        0 <= n <= 99,
{
    seq![digit_char(n / 10), digit_char(n % 10)]
}

/// At least four decimal digits, zero-padded.
pub open spec fn four_digits(n: int) -> Seq<char>
    recommends
        0 <= n,
{
    if n <= 9999 {
        seq![
            digit_char(n / 1000),
            digit_char(n / 100 % 10),
            digit_char(n / 10 % 10),
            digit_char(n % 10),
        ]
    } else {
        decimal_digits(n as nat)
    }
}

/// A year as it is displayed: four digits from 0 to 9999, and a sign in
/// front of at least four digits outside that range.
pub open spec fn year_text(year: int) -> Seq<char> {
    if 0 <= year <= 9999 {
        four_digits(year)
    } else if year < 0 {
        seq!['-'] + four_digits(-year)
    } else {
        seq!['+'] + four_digits(year)
    }
}

/// Whether `year` has a 29th of February in the proleptic Gregorian calendar.
pub open spec fn is_leap_year(year: int) -> bool {
    year % 4 == 0 && (year % 100 != 0 || year % 400 == 0)
}

/// The number of days of `month` in `year`.
pub open spec fn days_in_month(year: int, month: int) -> int
    recommends
        1 <= month <= 12,
{
    if month == 2 {
        if is_leap_year(year) {
            29
        } else {
            28
        }
    } else if month == 4 || month == 6 || month == 9 || month == 11 {
        30
    } else {
        31
    }
}

/// The earliest year a timestamp can hold.
pub const MIN_YEAR: i32 = -262143;

/// The latest year a timestamp can hold.
pub const MAX_YEAR: i32 = 262142;

/// The mathematical value of a [`Timestamp`].
pub struct Moment {
    pub year: int,
    pub month: int,
    pub day: int,
    pub hour: int,
    pub minute: int,
    pub second: int,
}

impl Moment {
    /// The moment with these fields.
    pub open spec fn at(year: int, month: int, day: int, hour: int, minute: int, second: int)
        -> Moment {
        Moment { year, month, day, hour, minute, second }
    }

    /// Whether the fields name a day of the calendar and a second of that day.
    pub open spec fn is_valid(self) -> bool {
        &&& MIN_YEAR <= self.year <= MAX_YEAR
        &&& 1 <= self.month <= 12
        &&& 1 <= self.day <= days_in_month(self.year, self.month)
        &&& 0 <= self.hour <= 23
        &&& 0 <= self.minute <= 59
        &&& 0 <= self.second <= 59
    }

    /// Whether `self` comes after `other`: in a later year, or in the same
    /// year in a later month, and so on down to the second.
    pub open spec fn is_after(self, other: Moment) -> bool {
        ||| self.year > other.year
        ||| self.year == other.year && self.month > other.month
        ||| self.year == other.year && self.month == other.month && self.day > other.day
        ||| self.year == other.year && self.month == other.month && self.day == other.day
            && self.hour > other.hour
        ||| self.year == other.year && self.month == other.month && self.day == other.day
            && self.hour == other.hour && self.minute > other.minute
        ||| self.year == other.year && self.month == other.month && self.day == other.day
            && self.hour == other.hour && self.minute == other.minute && self.second > other.second
    }

    /// A number that grows with time over the valid moments.
    pub open spec fn ordinal(self) -> int {
        ((((self.year * 13 + self.month) * 32 + self.day) * 24 + self.hour) * 60 + self.minute)
            * 60 + self.second
    }

    /// The moment displayed as `YYYY-MM-DD HH:MM:SS`.
    pub open spec fn text(self) -> Seq<char> {
        year_text(self.year) + seq!['-'] + two_digits(self.month) + seq!['-'] + two_digits(
            self.day,
        ) + seq![' '] + two_digits(self.hour) + seq![':'] + two_digits(self.minute) + seq![':']
            + two_digits(self.second)
    }
}

/// Of two valid moments the later one has the larger ordinal, and moments
/// with the same ordinal are the same.
pub proof fn lemma_ordinal_orders(a: Moment, b: Moment)
    requires
        a.is_valid(),
        b.is_valid(),
    ensures
        a.is_after(b) <==> a.ordinal() > b.ordinal(),
        a == b <==> a.ordinal() == b.ordinal(),
{
}

/// A date and time of day as the task table stores it: valid in the
/// calendar, to the second, without a time zone.
#[derive(Clone, Copy, Debug, PartialEq, Eq)]
pub struct Timestamp {
    year: i32,
    month: u32,
    day: u32,
    hour: u32,
    minute: u32,
    second: u32,
}

impl View for Timestamp {
    type V = Moment;

    closed spec fn view(&self) -> Moment {
        Moment::at(
            self.year as int,
            self.month as int,
            self.day as int,
            self.hour as int,
            self.minute as int,
            self.second as int,
        )
    }
}

/// Chrono's reading of a timestamp in the machine's time zone, displayed.
///
/// Calls `TimeZone::from_local_datetime` on `Local`, takes the `earliest`
/// of the answers and displays it with `DateTime::format` and the pattern
/// `%Y-%m-%d %H:%M:%S`. Which answer comes back depends on the time zone that
/// the machine is set to: none where the clock skipped over this time of
/// day, the earlier of two where the clock was set back over it. The
/// contract claims only what holds of each: an answer that exists shows the
/// fields of `stamp` itself, the year in at least four digits (signed
/// outside 0 to 9999), the others in two.
#[verifier::external_body]
pub(crate) fn earliest_local_text(stamp: &Timestamp) -> (text: Option<String>)
    requires
        stamp@.is_valid(),
    ensures
        text matches Some(t) ==> t@ == stamp@.text(),
{
    let date = NaiveDate::from_ymd_opt(stamp.year, stamp.month, stamp.day)?;
    let naive = date.and_hms_opt(stamp.hour, stamp.minute, stamp.second)?;
    let local = Local.from_local_datetime(&naive).earliest()?;
    Some(local.format("%Y-%m-%d %H:%M:%S").to_string())
}

/// Whether `year` is a leap year.
fn leap_year(year: i32) -> (leap: bool)
    requires
        MIN_YEAR <= year <= MAX_YEAR,
    ensures
        leap == is_leap_year(year as int),
{
    let shifted: i32 = year + 400000;
    shifted % 4 == 0 && (shifted % 100 != 0 || shifted % 400 == 0)
}

/// The number of days of `month` in `year`.
fn month_length(year: i32, month: u32) -> (days: u32)
    requires
        MIN_YEAR <= year <= MAX_YEAR,
        1 <= month <= 12,
    ensures
        days == days_in_month(year as int, month as int),
{
    if month == 2 {
        if leap_year(year) {
            29
        } else {
            28
        }
    } else if month == 4 || month == 6 || month == 9 || month == 11 {
        30
    } else {
        31
    }
}

impl Timestamp {
    /// Every timestamp is a valid moment.
    #[verifier::type_invariant]
    pub open spec fn well_formed(self) -> bool {
        self@.is_valid()
    }

    /// The timestamp with these fields, if they name a valid moment.
    pub fn new(year: i32, month: u32, day: u32, hour: u32, minute: u32, second: u32) -> (stamp:
        Option<Timestamp>)
        ensures
            stamp is Some <==> Moment::at(
                year as int,
                month as int,
                day as int,
                hour as int,
                minute as int,
                second as int,
            ).is_valid(),
            stamp matches Some(t) ==> t@ == Moment::at(
                year as int,
                month as int,
                day as int,
                hour as int,
                minute as int,
                second as int,
            ),
    {
        if year < MIN_YEAR || year > MAX_YEAR || month < 1 || month > 12 || day < 1 || hour > 23
            || minute > 59 || second > 59 {
            return None;
        }
        if day > month_length(year, month) {
            return None;
        }
        Some(Timestamp { year, month, day, hour, minute, second })
    }

    /// The year.
    pub fn year(&self) -> (year: i32)
        ensures
            year == self@.year,
    {
        self.year
    }

    /// The month, from 1 to 12.
    pub fn month(&self) -> (month: u32)
        ensures
            month == self@.month,
    {
        self.month
    }

    /// The day of the month, from 1.
    pub fn day(&self) -> (day: u32)
        ensures
            day == self@.day,
    {
        self.day
    }

    /// The hour, from 0 to 23.
    pub fn hour(&self) -> (hour: u32)
        ensures
            hour == self@.hour,
    {
        self.hour
    }

    /// The minute, from 0 to 59.
    pub fn minute(&self) -> (minute: u32)
        ensures
            minute == self@.minute,
    {
        self.minute
    }

    /// The second, from 0 to 59.
    pub fn second(&self) -> (second: u32)
        ensures
            second == self@.second,
    {
        self.second
    }

    /// Whether `self` comes after `other`.
    pub fn is_after(&self, other: &Timestamp) -> (after: bool)
        ensures
            after == self@.is_after(other@),
    {
        proof {
            use_type_invariant(self);
            use_type_invariant(other);
            lemma_ordinal_orders(self@, other@);
        }
        self.ordinal() > other.ordinal()
    }

    /// The ordinal of the moment.
    fn ordinal(&self) -> (n: i64)
        ensures
            n == self@.ordinal(),
    {
        proof {
            use_type_invariant(self);
        }
        let days: i64 = ((self.year as i64) * 13 + self.month as i64) * 32 + self.day as i64;
        ((days * 24 + self.hour as i64) * 60 + self.minute as i64) * 60 + self.second as i64
    }
}

} // verus!
