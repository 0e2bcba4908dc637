//! Calendar dates and the timestamps of a feed.

use chrono::Datelike;
use vstd::prelude::*;

verus! {

/// A day of the proleptic Gregorian calendar, with no time of day.
#[derive(Clone, Copy, Debug, PartialEq, Eq, Structural)]
pub struct CalendarDate {
    pub year: i32,
    /// 1 for January.
    pub month: u32,
    /// 1 for the first day of the month.
    pub day: u32,
}

/// What a clock shows: a day and the time of that day.
#[derive(Clone, Copy, Debug, PartialEq, Eq, Structural)]
pub struct ClockReading {
    pub date: CalendarDate,
    /// Whole seconds since midnight.
    pub second_of_day: u32,
    pub nanosecond: u32,
}

/// The clock off which the reading of a timestamp was taken.
#[derive(Clone, Copy, Debug, PartialEq, Eq, Structural)]
pub enum Clock {
    /// A clock that shows UTC.
    Utc,
    /// A clock that shows the time of the timestamp's own zone.
    Zone,
}

/// A point in time together with the zone in which it is to be shown: the
/// moment at which the clock `clock` shows `reading`.
#[derive(Clone, Copy, Debug, PartialEq, Eq, Structural)]
pub struct Timestamp {
    pub reading: ClockReading,
    pub clock: Clock,
    /// The zone, in seconds east of UTC.
    pub offset_seconds: i32,
}

/// Every timestamp of a feed is shown nine hours east of UTC, wherever the
/// feed is built.
pub const FEED_OFFSET_SECONDS: i32 = 9 * 3600;

/// The moment at which a clock that shows UTC reads `now`, to be shown in
/// the feed's zone.
pub open spec fn in_feed_zone(now: ClockReading) -> Timestamp {
    Timestamp { reading: now, clock: Clock::Utc, offset_seconds: FEED_OFFSET_SECONDS }
}

/// The start of `date` in the feed's zone: the moment at which a clock nine
/// hours east of UTC reads `date`, 00:00:00.
pub open spec fn midnight_of(date: CalendarDate) -> Timestamp {
    Timestamp {
        reading: ClockReading { date, second_of_day: 0, nanosecond: 0 },
        clock: Clock::Zone,
        offset_seconds: FEED_OFFSET_SECONDS,
    }
}

/// Attaches the feed's zone to `now`, a reading of a clock that shows UTC.
pub fn feed_timestamp(now: ClockReading) -> (t: Timestamp)
    ensures
        t == in_feed_zone(now),
{
    Timestamp { reading: now, clock: Clock::Utc, offset_seconds: FEED_OFFSET_SECONDS }
}

/// The timestamp of an item published on `date`: midnight of that day on the
/// clock of the feed's zone.
pub fn entry_timestamp(date: CalendarDate) -> (t: Timestamp)
    ensures
        t == midnight_of(date),
{
    Timestamp {
        reading: ClockReading { date, second_of_day: 0, nanosecond: 0 },
        clock: Clock::Zone,
        offset_seconds: FEED_OFFSET_SECONDS,
    }
}

/// The error of the `chrono` crate's parser.
#[verifier::external_type_specification]
#[verifier::external_body]
pub struct ExDateParseError(chrono::ParseError);

/// The date that `chrono::NaiveDate::parse_from_str` reads from `text` under
/// the strftime pattern `format`, or `None` where it reports an error.
pub uninterp spec fn parsed_date(text: Seq<char>, format: Seq<char>) -> Option<CalendarDate>;

/// Calls `chrono::NaiveDate::parse_from_str` and hands the date back by its
/// year, month and day. The contract claims only that the outcome depends on
/// the two strings alone, and gives it the name [`parsed_date`].
#[verifier::external_body]
pub(crate) fn parse_date(text: &str, format: &str) -> (r: Result<CalendarDate, chrono::ParseError>)
    ensures
        match r {
            Ok(date) => parsed_date(text@, format@) == Some(date),
            Err(_) => parsed_date(text@, format@) is None,
        },
{
    let date = chrono::NaiveDate::parse_from_str(text, format)?;
    Ok(CalendarDate { year: date.year(), month: date.month(), day: date.day() })
}

} // verus!
