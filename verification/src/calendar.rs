//! Calendar dates and look-back spans. A date is held as a count of days, so
//! that the planning rules are plain integer arithmetic; the chrono crate does
//! the calendar work.

use chrono::{DateTime, NaiveDate, TimeDelta};
use vstd::prelude::*;

verus! {

/// Seconds in a day.
pub const SECONDS_PER_DAY: i64 = 86_400;

/// Seconds in a week.
pub const SECONDS_PER_WEEK: i64 = 604_800;

/// The first day that a date can hold, counted from 1970-01-01: the first of
/// January of the year 262144 BCE.
pub const MIN_EPOCH_DAY: i32 = -96_465_292;

/// The last day that a date can hold, counted from 1970-01-01: the last of
/// December of the year 262142 CE.
pub const MAX_EPOCH_DAY: i32 = 95_026_236;

/// The longest span, in seconds, that a look-back can hold, in either
/// direction.
pub const MAX_SPAN_SECONDS: i64 = 9_223_372_036_854_775;

/// Whether a day, counted from 1970-01-01, lies in the range of dates.
pub open spec fn day_in_range(day: int) -> bool {
    MIN_EPOCH_DAY <= day <= MAX_EPOCH_DAY
}

/// The day, counted from 1970-01-01, on which a UTC timestamp in seconds
/// falls.
pub open spec fn day_of_timestamp(seconds: int) -> int {
    seconds / 86_400
}

/// The whole days in a span of seconds, rounded towards zero.
pub open spec fn whole_days(seconds: int) -> int {
    if seconds >= 0 {
        seconds / 86_400
    } else {
        -((-seconds) / 86_400)
    }
}

/// The text of a date in the form year-month-day, as chrono writes it.
pub uninterp spec fn iso_date_text(epoch_day: int) -> Seq<char>;

/// The day that chrono reads from a text in the form year-month-day, or
/// `None` where it reads no date.
pub uninterp spec fn iso_date_day(text: Seq<char>) -> Option<int>;

/// A calendar date in the proleptic Gregorian calendar.
#[derive(Clone, Copy, Debug, PartialEq, Eq, Structural)]
pub struct Date {
    epoch_day: i32,
}

impl View for Date {
    type V = int;

    /// The days between 1970-01-01 and this date.
    closed spec fn view(&self) -> int {
        self.epoch_day as int
    }
}

/// The day of a date, counted from 1970-01-01, if there is a date.
pub open spec fn day_of(date: Option<Date>) -> Option<int> {
    match date {
        Some(d) => Some(d@),
        None => None,
    }
}

impl Date {
    #[verifier::type_invariant]
    closed spec fn in_range(self) -> bool {
        day_in_range(self.epoch_day as int)
    }

    /// The date that lies `day` days after 1970-01-01, if there is one.
    pub fn from_epoch_days(day: i32) -> (r: Option<Date>)
        ensures
            r is Some <==> day_in_range(day as int),
            r matches Some(d) ==> d@ == day,
    {
        if MIN_EPOCH_DAY <= day && day <= MAX_EPOCH_DAY {
            Some(Date { epoch_day: day })
        } else {
            None
        }
    }

    /// The days between 1970-01-01 and this date.
    pub fn epoch_days(&self) -> (r: i32)
        ensures
            r == self@,
            day_in_range(r as int),
    {
        proof {
            use_type_invariant(self);
        }
        self.epoch_day
    }

    /// The date on which a UTC timestamp in seconds falls, if the calendar
    /// reaches that far.
    pub fn of_timestamp(seconds: i64) -> (r: Option<Date>)
        ensures
            r is Some <==> day_in_range(day_of_timestamp(seconds as int)),
            r matches Some(d) ==> d@ == day_of_timestamp(seconds as int),
    {
        match timestamp_epoch_day(seconds) {
            Some(day) => Date::from_epoch_days(day),
            None => None,
        }
    }

    /// The date that lies the whole days of `span` before this one, if the
    /// calendar reaches that far.
    pub fn checked_sub(&self, span: &Lookback) -> (r: Option<Date>)
        ensures
            r is Some <==> day_in_range(self@ - whole_days(span@)),
            r matches Some(d) ==> d@ == self@ - whole_days(span@),
    {
        proof {
            use_type_invariant(self);
            use_type_invariant(span);
        }
        match epoch_day_minus_span(self.epoch_day, span.seconds) {
            Some(day) => Date::from_epoch_days(day),
            None => None,
        }
    }

    /// The date as year-month-day text.
    pub fn to_text(&self) -> (r: String)
        ensures
            r@ == iso_date_text(self@),
    {
        proof {
            use_type_invariant(self);
        }
        epoch_day_text(self.epoch_day)
    }

    /// Reads a date from year-month-day text.
    pub fn parse(text: &str) -> (r: Option<Date>)
        ensures
            r is Some <==> (iso_date_day(text@) matches Some(day) && day_in_range(day)),
            r matches Some(d) ==> iso_date_day(text@) == Some(d@),
    {
        match text_epoch_day(text) {
            Some(day) => Date::from_epoch_days(day),
            None => None,
        }
    }
}

/// A span of time to look back over, in whole seconds. It may be negative.
#[derive(Clone, Copy, Debug, PartialEq, Eq, Structural)]
pub struct Lookback {
    seconds: i64,
}

impl View for Lookback {
    type V = int;

    /// The seconds of the span.
    closed spec fn view(&self) -> int {
        self.seconds as int
    }
}

impl Lookback {
    #[verifier::type_invariant]
    closed spec fn in_range(self) -> bool {
        -MAX_SPAN_SECONDS <= self.seconds <= MAX_SPAN_SECONDS
    }

    /// A span of `seconds` seconds, unless that is too long.
    pub fn seconds(seconds: i64) -> (r: Option<Lookback>)
        ensures
            r is Some <==> -MAX_SPAN_SECONDS <= seconds <= MAX_SPAN_SECONDS,
            r matches Some(l) ==> l@ == seconds,
    {
        if -MAX_SPAN_SECONDS <= seconds && seconds <= MAX_SPAN_SECONDS {
            Some(Lookback { seconds })
        } else {
            None
        }
    }

    /// A span of `days` days, unless that is too long.
    pub fn days(days: i64) -> (r: Option<Lookback>)
        ensures
            r is Some <==> -MAX_SPAN_SECONDS <= days * 86_400 <= MAX_SPAN_SECONDS,
            r matches Some(l) ==> l@ == days * 86_400,
    {
        match days.checked_mul(SECONDS_PER_DAY) {
            Some(seconds) => Lookback::seconds(seconds),
            None => None,
        }
    }

    /// A span of `weeks` weeks, unless that is too long.
    pub fn weeks(weeks: i64) -> (r: Option<Lookback>)
        ensures
            r is Some <==> -MAX_SPAN_SECONDS <= weeks * 604_800 <= MAX_SPAN_SECONDS,
            r matches Some(l) ==> l@ == weeks * 604_800,
    {
        match weeks.checked_mul(SECONDS_PER_WEEK) {
            Some(seconds) => Lookback::seconds(seconds),
            None => None,
        }
    }

    /// The seconds of the span.
    pub fn num_seconds(&self) -> (r: i64)
        ensures
            r == self@,
            -MAX_SPAN_SECONDS <= r <= MAX_SPAN_SECONDS,
    {
        proof {
            use_type_invariant(self);
        }
        self.seconds
    }
}

/// `DateTime::from_timestamp` of chrono, then `date_naive` and
/// `NaiveDate::to_epoch_days`: the day on which the timestamp falls is the
/// quotient of the seconds by 86,400, rounded down, and there is none where
/// that day lies outside the range of dates.
#[verifier::external_body]
fn timestamp_epoch_day(seconds: i64) -> (r: Option<i32>)
    ensures
        r is Some <==> day_in_range(day_of_timestamp(seconds as int)),
        r matches Some(day) ==> day == day_of_timestamp(seconds as int),
{
    match DateTime::from_timestamp(seconds, 0) {
        Some(instant) => Some(instant.date_naive().to_epoch_days()),
        None => None,
    }
}

/// `NaiveDate::checked_sub_signed` of chrono, between
/// `NaiveDate::from_epoch_days` and `NaiveDate::to_epoch_days`: the whole days
/// of the span are taken from the date, and there is no result where it would
/// lie outside the range of dates.
#[verifier::external_body]
fn epoch_day_minus_span(day: i32, seconds: i64) -> (r: Option<i32>)
    requires
        day_in_range(day as int),
        -MAX_SPAN_SECONDS <= seconds <= MAX_SPAN_SECONDS,
    ensures
        r is Some <==> day_in_range(day - whole_days(seconds as int)),
        r matches Some(d) ==> d == day - whole_days(seconds as int),
{
    let date = NaiveDate::from_epoch_days(day).unwrap();
    match date.checked_sub_signed(TimeDelta::seconds(seconds)) {
        Some(earlier) => Some(earlier.to_epoch_days()),
        None => None,
    }
}

/// `NaiveDate::format` of chrono with the pattern `%Y-%m-%d`, on the date
/// that `NaiveDate::from_epoch_days` makes of the day. What chrono writes
/// depends on the day alone; it goes by the name `iso_date_text`.
#[verifier::external_body]
fn epoch_day_text(day: i32) -> (r: String)
    requires
        day_in_range(day as int),
    ensures
        r@ == iso_date_text(day as int),
{
    NaiveDate::from_epoch_days(day).unwrap().format("%Y-%m-%d").to_string()
}

/// `NaiveDate::from_str` of chrono, then `NaiveDate::to_epoch_days`. What
/// chrono reads depends on the text alone; it goes by the name
/// `iso_date_day`, which is `None` where chrono reads no date.
#[verifier::external_body]
fn text_epoch_day(text: &str) -> (r: Option<i32>)
    ensures
        r is Some <==> iso_date_day(text@) is Some,
        r matches Some(day) ==> iso_date_day(text@) == Some(day as int),
{
    match text.parse::<NaiveDate>() {
        Ok(date) => Some(date.to_epoch_days()),
        Err(_) => None,
    }
}

} // verus!
