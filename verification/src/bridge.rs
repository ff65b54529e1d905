//! The calls into chrono: reading dates and times of day from text, writing a
//! date out, and asking the clock. Each works on plain numbers, so that the
//! rest of the library never holds a value of chrono's.

use chrono::Datelike;
use chrono::Timelike;
use vstd::prelude::*;

use crate::calendar::is_valid_date;
use crate::calendar::is_valid_offset;
use crate::text::decimal_digits;
use crate::text::digit_char;

verus! {

/// The year, month and day that chrono reads from `text` under the format
/// `%Y-%m-%d`, or `None` where it reports an error.
pub uninterp spec fn date_from_text(text: Seq<char>) -> Option<(i32, u32, u32)>;

/// The time of day that chrono reads from `text` under the format `%H:%M:%S`,
/// as its seconds since midnight and its nanoseconds since the last whole
/// second, or `None` where it reports an error.
pub uninterp spec fn time_from_text(text: Seq<char>) -> Option<(u32, u32)>;

/// A number below a hundred in two decimal digits.
pub open spec fn two_digits(number: int) -> Seq<char> {
    seq![digit_char((number / 10) as nat), digit_char((number % 10) as nat)]
}

/// A year as it is written: in four digits from year 0 to year 9999, and
/// else with its sign before at least four digits.
pub open spec fn year_to_text(year: int) -> Seq<char> {
    if 0 <= year <= 9999 {
        two_digits(year / 100) + two_digits(year % 100)
    } else if year > 9999 {
        seq!['+'] + decimal_digits(year as nat)
    } else if year >= -9999 {
        seq!['-'] + two_digits((-year) / 100) + two_digits((-year) % 100)
    } else {
        seq!['-'] + decimal_digits((-year) as nat)
    }
}

/// An offset from UTC as it is written: its sign, then the hours and minutes
/// in two digits each with a colon between them, and the seconds after
/// another colon where there are any.
pub open spec fn offset_to_text(offset: int) -> Seq<char> {
    let sign = if offset < 0 {
        '-'
    } else {
        '+'
    };
    let seconds = if offset < 0 {
        -offset
    } else {
        offset
    };
    let hours_and_minutes = seq![sign] + two_digits(seconds / 3600) + seq![':'] + two_digits(
        (seconds / 60) % 60,
    );
    if seconds % 60 == 0 {
        hours_and_minutes
    } else {
        hours_and_minutes + seq![':'] + two_digits(seconds % 60)
    }
}

/// A day of the calendar at an offset as it is written: year, month and day
/// with hyphens between them, followed by the offset.
pub open spec fn date_to_text(offset: int, year: int, month: int, day: int) -> Seq<char> {
    year_to_text(year) + seq!['-'] + two_digits(month) + seq!['-'] + two_digits(day)
        + offset_to_text(offset)
}

/// Calls `chrono::NaiveDate::parse_from_str` with the format `%Y-%m-%d` and
/// takes the result apart with `year`, `month` and `day`.
///
/// Trusted: the result depends on the text alone.
#[verifier::external_body]
pub(crate) fn parse_date(text: &str) -> (parsed: Option<(i32, u32, u32)>)
    ensures
        parsed == date_from_text(text@),
{
    match chrono::NaiveDate::parse_from_str(text, "%Y-%m-%d") {
        Ok(date) => Some((date.year(), date.month(), date.day())),
        Err(_) => None,
    }
}

/// Calls `chrono::NaiveTime::parse_from_str` with the format `%H:%M:%S` and
/// takes the result apart with `num_seconds_from_midnight` and `nanosecond`.
///
/// Trusted: the result depends on the text alone.
#[verifier::external_body]
pub(crate) fn parse_time(text: &str) -> (parsed: Option<(u32, u32)>)
    ensures
        parsed == time_from_text(text@),
{
    match chrono::NaiveTime::parse_from_str(text, "%H:%M:%S") {
        Ok(time) => Some((time.num_seconds_from_midnight(), time.nanosecond())),
        Err(_) => None,
    }
}

/// Makes a `chrono::Date<chrono::FixedOffset>` of the given day and offset
/// and calls its `to_string`.
///
/// Trusted: chrono accepts every offset of less than a day and every day of
/// the calendar between [`crate::calendar::MIN_YEAR`] and
/// [`crate::calendar::MAX_YEAR`]. It writes the date as `NaiveDate` is
/// written, year, month and day with hyphens between them, and the offset
/// after it as `FixedOffset` is written.
#[allow(deprecated)]
#[verifier::external_body]
pub(crate) fn format_date(offset: i32, year: i32, month: u32, day: u32) -> (text: String)
    requires
        is_valid_offset(offset as int),
        is_valid_date(year as int, month as int, day as int),
    ensures
        text@ == date_to_text(offset as int, year as int, month as int, day as int),
{
    let offset = chrono::FixedOffset::east_opt(offset).unwrap();
    let date = chrono::NaiveDate::from_ymd_opt(year, month, day).unwrap();
    chrono::Date::<chrono::FixedOffset>::from_utc(date, offset).to_string()
}

/// Calls `chrono::Utc::now` and moves the result to the given offset with
/// `with_timezone`; hands back the local year, month, day, seconds since
/// midnight and nanoseconds since the last whole second.
///
/// Trusted: whatever the clock says, chrono's date is a day of the calendar
/// between [`crate::calendar::MIN_YEAR`] and [`crate::calendar::MAX_YEAR`].
#[verifier::external_body]
pub(crate) fn read_clock(offset: i32) -> (reading: (i32, u32, u32, u32, u32))
    requires
        is_valid_offset(offset as int),
    ensures
        is_valid_date(reading.0 as int, reading.1 as int, reading.2 as int),
{
    let offset = chrono::FixedOffset::east_opt(offset).unwrap();
    let now = chrono::Utc::now().with_timezone(&offset);
    (now.year(), now.month(), now.day(), now.num_seconds_from_midnight(), now.nanosecond())
}

} // verus!
