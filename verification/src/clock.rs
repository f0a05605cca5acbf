//! Days, weeks and times of day.
//!
//! A day is counted as the proleptic Gregorian calendar counts them, day 1
//! being 1 January of the year 1, which is a Monday. A week runs from Monday
//! to Sunday, and a weekday is numbered by its distance from Monday.

use chrono::{NaiveTime, Timelike, Weekday};
use num_traits::FromPrimitive;
use vstd::prelude::*;

verus! {

/// The seconds of a day.
pub const DAY_SECONDS: u32 = 86_400;

/// The weekdays of a week.
pub const WEEK_DAYS: u32 = 7;

/// The weekday of a day: 0 for Monday up to 6 for Sunday.
pub open spec fn weekday_of(day: int) -> int {
    (day - 1) % 7
}

/// The Monday of the week that holds `day`.
pub open spec fn week_start(day: int) -> int {
    day - weekday_of(day)
}

/// The day of `today`'s week that falls on `weekday`: the week's Monday and
/// `weekday` days more, whether or not that day has passed.
pub open spec fn day_in_week(today: int, weekday: int) -> int {
    week_start(today) + weekday
}

/// A point of local time: a day, and the second of that day.
#[derive(Debug, Clone, Copy, PartialEq, Eq, Structural)]
pub struct Moment {
    /// The day, counted from 1 January of the year 1, which is day 1.
    pub day: i32,
    /// The seconds since the midnight with which the day began.
    pub second: u32,
}

impl Moment {
    /// A moment is well formed where its second lies within the day and
    /// every day of its week can be counted in an `i32`.
    pub open spec fn wf(self) -> bool {
        &&& self.second < DAY_SECONDS
        &&& i32::MIN <= week_start(self.day as int)
        &&& week_start(self.day as int) + 6 <= i32::MAX
    }

    /// The seconds from the start of day 0 to this moment.
    pub open spec fn instant(self) -> int {
        self.day * 86_400 + self.second
    }

    /// The moment at `second` of `day`, where that is well formed.
    pub fn new(day: i32, second: u32) -> (moment: Option<Moment>)
        ensures
            moment is Some <==> (Moment { day, second }).wf(),
            moment matches Some(m) ==> m.day == day && m.second == second,
    {
        let weekday = weekday(day);
        if second < DAY_SECONDS && day >= i32::MIN + weekday && day - weekday <= i32::MAX - 6 {
            Some(Moment { day, second })
        } else {
            None
        }
    }

    /// The day of this moment's week that falls on `weekday`.
    pub fn day_on(self, weekday: u32) -> (day: i32)
        requires
            self.wf(),
            weekday < WEEK_DAYS,
        ensures
            day == day_in_week(self.day as int, weekday as int),
    {
        let monday: i32 = self.day - self::weekday(self.day);
        monday + weekday as i32
    }
}

/// The weekday of `day`, counted from Monday.
pub fn weekday(day: i32) -> (weekday: i32)
    ensures
        weekday == weekday_of(day as int),
        0 <= weekday < 7,
{
    // 306_783_379 weeks reach below every `i32`, so the sum is not negative.
    let shifted: i64 = day as i64 - 1 + 7 * 306_783_379;
    (shifted % 7) as i32
}

/// What `chrono` reads as a time of day in `text` under the format `format`:
/// the seconds from midnight to that time, or nothing where it refuses the
/// text.
pub uninterp spec fn clock_reading(text: Seq<char>, format: Seq<char>) -> Option<u32>;

/// Reads a time of day.
///
/// Trusted: the call is `chrono::NaiveTime::parse_from_str`, and the seconds
/// are taken from the time with `chrono::Timelike::num_seconds_from_midnight`.
/// The contract names the outcome as a function of the two texts, and says of
/// it what `chrono` documents of the latter: the count lies within one day.
#[verifier::external_body]
pub(crate) fn read_clock(text: &str, format: &str) -> (seconds: Option<u32>)
    ensures
        seconds == clock_reading(text@, format@),
        seconds matches Some(s) ==> s < DAY_SECONDS,
{
    match NaiveTime::parse_from_str(text, format) {
        Ok(time) => Some(time.num_seconds_from_midnight()),
        Err(_) => None,
    }
}

/// The weekday with the number `index`, by its distance from Monday.
///
/// Trusted: the calls are `num_traits::FromPrimitive::from_u64` as `chrono`
/// implements it for `chrono::Weekday`, which knows the numbers 0 (Monday) to
/// 6 (Sunday) and no other, and `chrono::Weekday::num_days_from_monday`, which
/// gives that number back.
#[verifier::external_body]
pub(crate) fn weekday_number(index: u64) -> (weekday: Option<u32>)
    ensures
        weekday == (if index < 7 {
            Some(index as u32)
        } else {
            None
        }),
{
    match Weekday::from_u64(index) {
        Some(day) => Some(day.num_days_from_monday()),
        None => None,
    }
}

} // verus!
