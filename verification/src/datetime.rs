//! Dates and times as plain values, checked by the crates that the clocks of the
//! two firmwares take them from.

use chrono::{Datelike, NaiveDate, Timelike};
use embassy_stm32::rtc::{self, DayOfWeek};
use vstd::prelude::*;

verus! {

/// A date and time of day.
#[derive(Clone, Copy, Debug, PartialEq, Eq, Structural)]
pub struct DateTime {
    pub year: i32,
    pub month: u8,
    pub day: u8,
    pub hour: u8,
    pub minute: u8,
    pub second: u8,
}

/// The year has a 29th of February in the Gregorian calendar, which is taken to
/// hold for all time.
pub open spec fn is_leap_year(year: int) -> bool {
    year % 4 == 0 && (year % 100 != 0 || year % 400 == 0)
}

/// Number of days of a month.
pub open spec fn days_in_month(year: int, month: int) -> int {
    if month == 2 {
        if is_leap_year(year) {
            29
        } else {
            28
        }
    } else if month == 4 || month == 6 || month == 9 || month == 11 {
        30
    } else {
        31
    }
}

/// The day exists in the calendar, in a year that `chrono` can hold.
pub open spec fn is_calendar_day(year: int, month: int, day: int) -> bool {
    &&& -262143 <= year <= 262142
    &&& 1 <= month <= 12
    &&& 1 <= day <= days_in_month(year, month)
}

/// Days from the start of year 0 to the start of a year.
pub open spec fn days_before_year(year: int) -> int {
    365 * year + (year + 3) / 4 - (year + 99) / 100 + (year + 399) / 400
}

/// Days from the start of a year to the start of one of its months.
pub open spec fn days_before_month(year: int, month: int) -> int
    decreases month,
{
    if month <= 1 {
        0
    } else {
        days_before_month(year, month - 1) + days_in_month(year, month - 1)
    }
}

/// Number of a day, counted from the first day of year 0.
pub open spec fn day_number(year: int, month: int, day: int) -> int {
    days_before_year(year) + days_before_month(year, month) + day - 1
}

/// The years follow each other: each has 365 days, or 366 if it is a leap year,
/// and these are the days of its twelve months.
pub proof fn law_years_follow(year: int)
    ensures
        days_before_year(year + 1) == days_before_year(year) + (if is_leap_year(year) {
            366int
        } else {
            365
        }),
        days_before_month(year, 13) == days_before_year(year + 1) - days_before_year(year),
{
    reveal_with_fuel(days_before_month, 13);
}

/// Days with the same place in different months are at least 28 days apart.
pub proof fn law_months_apart(year: int, month: int, year2: int, month2: int, day: int)
    requires
        1 <= month <= 12,
        1 <= month2 <= 12,
        year < year2 || (year == year2 && month < month2),
    ensures
        day_number(year, month, day) + 28 <= day_number(year2, month2, day),
{
    lemma_month_ends(year, month, month2);
    lemma_month_ends(year, month, 13);
    lemma_month_ends(year2, 1, month2);
    law_years_follow(year);
    if year < year2 {
        lemma_years_add_up(year + 1, year2);
    }
}

/// The months of a year follow each other, and each has at least 28 days.
proof fn lemma_month_ends(year: int, month: int, later: int)
    requires
        1 <= month <= 13,
        1 <= later <= 13,
    ensures
        month < later ==> days_before_month(year, month) + 28 <= days_before_month(year, later),
        0 <= days_before_month(year, later),
{
    reveal_with_fuel(days_before_month, 13);
}

/// A later year starts later.
proof fn lemma_years_add_up(year: int, later: int)
    requires
        year <= later,
    ensures
        days_before_year(year) <= days_before_year(later),
    decreases later - year,
{
    if year < later {
        lemma_years_add_up(year, later - 1);
        law_years_follow(later - 1);
    }
}

/// The time of day exists; leap seconds do not.
pub open spec fn is_time_of_day(hour: int, minute: int, second: int) -> bool {
    0 <= hour < 24 && 0 <= minute < 60 && 0 <= second < 60
}

/// The date and time with these fields, if the day and the time of day exist.
pub open spec fn date_time(
    year: i32,
    month: u32,
    day: u32,
    hour: u32,
    minute: u32,
    second: u32,
) -> Option<DateTime> {
    if is_calendar_day(year as int, month as int, day as int) && is_time_of_day(
        hour as int,
        minute as int,
        second as int,
    ) {
        Some(
            DateTime {
                year,
                month: month as u8,
                day: day as u8,
                hour: hour as u8,
                minute: minute as u8,
                second: second as u8,
            },
        )
    } else {
        None
    }
}

/// `chrono::NaiveDate::from_ymd_opt`, then `NaiveDate::and_hms_opt`, and the six
/// fields of the `NaiveDateTime` that they give, read through `Datelike` and
/// `Timelike`. The two constructors give a value exactly for a day that the
/// calendar has and a time that a day has, and the fields are the ones that went
/// in.
#[verifier::external_body]
fn chrono_date_time(
    year: i32,
    month: u32,
    day: u32,
    hour: u32,
    minute: u32,
    second: u32,
) -> (r: Option<DateTime>)
    ensures
        r == date_time(year, month, day, hour, minute, second),
{
    let t = NaiveDate::from_ymd_opt(year, month, day)?.and_hms_opt(hour, minute, second)?;
    Some(DateTime {
        year: t.year(),
        month: t.month() as u8,
        day: t.day() as u8,
        hour: t.hour() as u8,
        minute: t.minute() as u8,
        second: t.second() as u8,
    })
}

impl DateTime {
    /// The date and time with these fields, if there is one.
    pub fn new(year: i32, month: u32, day: u32, hour: u32, minute: u32, second: u32) -> (r: Option<
        DateTime,
    >)
        ensures
            r == date_time(year, month, day, hour, minute, second),
    {
        chrono_date_time(year, month, day, hour, minute, second)
    }
}

/// Days of the week.
#[derive(Clone, Copy, Debug, PartialEq, Eq, Structural)]
pub enum Weekday {
    Monday,
    Tuesday,
    Wednesday,
    Thursday,
    Friday,
    Saturday,
    Sunday,
}

impl Weekday {
    /// The day of the week on which a day falls. Day 0 of year 0 is a Saturday.
    pub open spec fn of_day(number: int) -> Weekday {
        if number % 7 == 0 {
            Weekday::Saturday
        } else if number % 7 == 1 {
            Weekday::Sunday
        } else if number % 7 == 2 {
            Weekday::Monday
        } else if number % 7 == 3 {
            Weekday::Tuesday
        } else if number % 7 == 4 {
            Weekday::Wednesday
        } else if number % 7 == 5 {
            Weekday::Thursday
        } else {
            Weekday::Friday
        }
    }
}

/// A date and time as the RTC of the microcontroller keeps it.
#[derive(Clone, Copy, Debug, PartialEq, Eq, Structural)]
pub struct RtcDateTime {
    pub year: u16,
    pub month: u8,
    pub day: u8,
    pub weekday: Weekday,
    pub hour: u8,
    pub minute: u8,
    pub second: u8,
    pub microsecond: u32,
}

/// The fields are in the ranges that the RTC can hold. Whether the month has the
/// day, and whether the day is that weekday, plays no part.
pub open spec fn rtc_accepts(t: RtcDateTime) -> bool {
    &&& t.year <= 4095
    &&& 1 <= t.month <= 12
    &&& 1 <= t.day <= 31
    &&& t.hour <= 23
    &&& t.minute <= 59
    &&& t.second <= 59
    &&& t.microsecond <= 999_999
}

/// `embassy_stm32::rtc::DateTime::from`, and the numbers of the value that it
/// gives, read through its methods; the weekday is handed on. It gives a value
/// exactly when every number is in its range, and the numbers are the ones that
/// went in.
#[verifier::external_body]
fn embassy_date_time(t: RtcDateTime) -> (r: Option<RtcDateTime>)
    ensures
        r == (if rtc_accepts(t) {
            Some(t)
        } else {
            None
        }),
{
    let day = match t.weekday {
        Weekday::Monday => DayOfWeek::Monday,
        Weekday::Tuesday => DayOfWeek::Tuesday,
        Weekday::Wednesday => DayOfWeek::Wednesday,
        Weekday::Thursday => DayOfWeek::Thursday,
        Weekday::Friday => DayOfWeek::Friday,
        Weekday::Saturday => DayOfWeek::Saturday,
        Weekday::Sunday => DayOfWeek::Sunday,
    };
    let d = rtc::DateTime::from(t.year, t.month, t.day, day, t.hour, t.minute, t.second, t.microsecond).ok()?;
    let (year, month, day, hour, minute) = (d.year(), d.month(), d.day(), d.hour(), d.minute());
    Some(RtcDateTime { year, month, day, hour, minute, second: d.second(), microsecond: d.microsecond(), ..t })
}

impl RtcDateTime {
    /// The date and time, if the RTC can hold it.
    pub fn checked(self) -> (r: Option<RtcDateTime>)
        ensures
            r == (if rtc_accepts(self) {
                Some(self)
            } else {
                None
            }),
    {
        embassy_date_time(self)
    }
}

/// The calendar repeats every 400 years, which have 146097 days. Every fourth year
/// is a leap year, but of the centuries only every fourth.
pub proof fn law_calendar_cycle(year: int)
    ensures
        days_before_year(year + 400) == days_before_year(year) + 146_097,
        year % 400 == 0 ==> days_before_year(year + 100) == days_before_year(year) + 36_525,
        year % 400 == 0 ==> days_before_year(year + 400) == days_before_year(year + 300) + 36_524,
        is_leap_year(year) ==> year % 4 == 0,
        year % 4 == 0 && year % 100 != 0 ==> is_leap_year(year),
        year % 100 == 0 ==> (is_leap_year(year) <==> year % 400 == 0),
{
}

/// The months from January to July are long and short by turns, and so are those
/// from August to December; February has 28 days, or 29 in a leap year.
pub proof fn law_month_lengths(year: int, month: int)
    requires
        1 <= month <= 12,
    ensures
        month != 2 ==> days_in_month(year, month) == 30 + (month + month / 8) % 2,
        month == 2 && is_leap_year(year) ==> days_in_month(year, month) == 29,
        month == 2 && !is_leap_year(year) ==> days_in_month(year, month) == 28,
{
}

/// A date and time has the fields that it was asked for, each in its place, and
/// there is one exactly if the year can be held, the month is one of twelve, the
/// month has the day, and the time comes in a day of 24 hours.
pub proof fn law_date_time_fields(
    year: i32,
    month: u32,
    day: u32,
    hour: u32,
    minute: u32,
    second: u32,
)
    ensures
        ({
            let r = date_time(year, month, day, hour, minute, second);
            let leap = year as int % 4 == 0 && (year as int % 100 != 0 || year as int % 400 == 0);
            &&& r matches Some(t) ==> {
                &&& t.year == year && t.month == month && t.day == day
                &&& t.hour == hour && t.minute == minute && t.second == second
            }
            &&& r is Some <==> {
                &&& -262144 < year < 262143
                &&& 0 < month < 13
                &&& 0 < day
                &&& month != 2 ==> day <= 30 + (month + month / 8) % 2
                &&& month == 2 ==> day <= 28 || (day == 29 && leap)
                &&& hour < 24 && minute < 60 && second < 60
            }
        }),
{
}

/// The RTC takes a value exactly if each of its numbers is in its range: years
/// of twelve bits, and the largest numbers that a date and time can have.
pub proof fn law_rtc_ranges(t: RtcDateTime)
    ensures
        rtc_accepts(t) <==> {
            &&& t.year < 0x1000
            &&& 0 < t.month < 13
            &&& 0 < t.day < 32
            &&& t.hour < 24
            &&& t.minute < 60
            &&& t.second < 60
            &&& t.microsecond < 1_000_000
        },
{
}

} // verus!
