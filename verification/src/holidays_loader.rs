//! Turning the records of a list of holidays into dates. Each record holds a
//! date as year, month and day in its first field.

use vstd::prelude::*;
use vstd::string::StringExecFns;

use crate::bridge::date_from_text;
use crate::bridge::parse_date;
use crate::calendar::day_of_parsed;
use crate::calendar::is_valid_date;
use crate::calendar::Date;
use crate::calendar::FixedOffset;
use crate::text::decimal_digits;
use crate::text::decimal_text;

verus! {

/// Why a list of holidays could not be loaded.
#[derive(Debug, PartialEq, Eq)]
pub enum HolidaysLoaderError {
    /// The file of this name could not be opened.
    ErrorOpeningFile(String),
    /// The record on the line of this number holds no date.
    InvalidDateFormat(u64),
}

impl HolidaysLoaderError {
    /// The error in words.
    pub open spec fn message(self) -> Seq<char> {
        match self {
            HolidaysLoaderError::ErrorOpeningFile(file) => "Error opening file "@ + file@ + "."@,
            HolidaysLoaderError::InvalidDateFormat(line) => "Invalid date format at line "@
                + decimal_digits(line as nat) + "."@,
        }
    }

    /// The error in words.
    pub fn to_string(&self) -> (text: String)
        ensures
            text@ == self.message(),
    {
        match self {
            HolidaysLoaderError::ErrorOpeningFile(file) => {
                let mut text = String::from_str("Error opening file ");
                text.append(file.as_str());
                text.append(".");
                text
            },
            HolidaysLoaderError::InvalidDateFormat(line) => {
                let mut text = String::from_str("Invalid date format at line ");
                text.append(decimal_text(*line).as_str());
                text.append(".");
                text
            },
        }
    }
}

/// One record of a list of holidays, as far as it matters here.
#[derive(Debug)]
pub struct HolidayRecord {
    /// The first field of the record, if it has any field.
    pub date: Option<String>,
    /// The line on which the record was found, if that is known.
    pub line: Option<u64>,
}

/// What reading the first field of one record came to.
#[derive(Clone, Copy, Debug)]
pub struct ParsedRecord {
    /// The year, month and day that were read, if any were.
    pub date: Option<(i32, u32, u32)>,
    /// The line on which the record was found, if that is known.
    pub line: Option<u64>,
}

/// The line number that is reported for a record: one more than the line on
/// which it was found, and 0 where that is not known.
pub open spec fn reported_line(line: Option<u64>) -> int {
    match line {
        None => 0,
        Some(line) => line + 1,
    }
}

/// Whether a year, month and day were read and name a day of the calendar.
pub open spec fn is_day(parsed: Option<(i32, u32, u32)>) -> bool {
    parsed matches Some((year, month, day)) && is_valid_date(
        year as int,
        month as int,
        day as int,
    )
}

/// What reading the first field of each record comes to, in the order of the
/// records. A record without any field is left out.
pub open spec fn parsed_of(records: Seq<HolidayRecord>) -> Seq<ParsedRecord>
    decreases records.len(),
{
    if records.len() == 0 {
        Seq::empty()
    } else {
        let earlier = parsed_of(records.drop_last());
        match records.last().date {
            None => earlier,
            Some(text) => earlier.push(
                ParsedRecord { date: date_from_text(text@), line: records.last().line },
            ),
        }
    }
}

/// Whether `collected` is what the records come to as a list of dates at the
/// given offset: the day of each record in order, where every record holds a
/// day of the calendar; else the line of the first record that holds none.
pub open spec fn is_collected(
    offset: int,
    parsed: Seq<ParsedRecord>,
    collected: Result<Vec<Date>, HolidaysLoaderError>,
) -> bool {
    match collected {
        Ok(holidays) => {
            &&& forall|i: int| 0 <= i < parsed.len() ==> is_day((#[trigger] parsed[i]).date)
            &&& holidays@.len() == parsed.len()
            &&& forall|i: int|
                0 <= i < parsed.len() ==> day_of_parsed(offset, parsed[i].date) == Some(
                    (#[trigger] holidays@[i])@,
                )
        },
        Err(error) => exists|i: int|
            {
                &&& 0 <= i < parsed.len()
                &&& !is_day((#[trigger] parsed[i]).date)
                &&& forall|j: int| 0 <= j < i ==> is_day((#[trigger] parsed[j]).date)
                &&& error == HolidaysLoaderError::InvalidDateFormat(
                    reported_line(parsed[i].line) as u64,
                )
            },
    }
}

/// The line number that is reported for a record.
pub fn line_number(line: Option<u64>) -> (number: u64)
    requires
        line != Some(u64::MAX),
    ensures
        number == reported_line(line),
{
    match line {
        None => 0,
        Some(line) => line + 1,
    }
}

/// Reads the first field of every record that has one as year, month and day.
pub fn parse_records(records: &Vec<HolidayRecord>) -> (parsed: Vec<ParsedRecord>)
    ensures
        parsed@ == parsed_of(records@),
{
    let mut parsed: Vec<ParsedRecord> = Vec::new();
    let mut i: usize = 0;
    while i < records.len()
        invariant
            i <= records.len(),
            parsed@ == parsed_of(records@.take(i as int)),
        decreases records.len() - i,
    {
        let record = &records[i];
        proof {
            assert(records@.take(i + 1).drop_last() =~= records@.take(i as int));
            assert(records@.take(i + 1).last() == records[i as int]);
        }
        match &record.date {
            Some(date_string) => {
                parsed.push(
                    ParsedRecord { date: parse_date(date_string.as_str()), line: record.line },
                );
            },
            None => {},
        }
        i += 1;
    }
    proof {
        assert(records@.take(records.len() as int) =~= records@);
    }
    parsed
}

/// Makes a date of what was read from every record, in order. Stops at the
/// first record that holds no day of the calendar, and reports the line of
/// that record.
pub fn collect_dates(time_offset: FixedOffset, parsed: &Vec<ParsedRecord>) -> (collected: Result<
    Vec<Date>,
    HolidaysLoaderError,
>)
    requires
        forall|i: int| 0 <= i < parsed.len() ==> (#[trigger] parsed[i]).line != Some(u64::MAX),
    ensures
        is_collected(time_offset@, parsed@, collected),
{
    let mut holidays: Vec<Date> = Vec::new();
    let mut i: usize = 0;
    while i < parsed.len()
        invariant
            i <= parsed.len(),
            forall|j: int| 0 <= j < parsed.len() ==> (#[trigger] parsed[j]).line != Some(u64::MAX),
            forall|j: int| 0 <= j < i ==> is_day((#[trigger] parsed[j]).date),
            holidays@.len() == i,
            forall|j: int|
                0 <= j < i ==> day_of_parsed(time_offset@, parsed[j].date) == Some(
                    (#[trigger] holidays@[j])@,
                ),
        decreases parsed.len() - i,
    {
        let record = &parsed[i];
        match Date::from_parsed(time_offset, record.date) {
            Some(date) => {
                holidays.push(date);
            },
            None => {
                return Err(HolidaysLoaderError::InvalidDateFormat(line_number(record.line)));
            },
        }
        i += 1;
    }
    Ok(holidays)
}

/// Whether the line of every record leaves room to count one line on.
pub open spec fn lines_can_be_reported(records: Seq<HolidayRecord>) -> bool {
    forall|i: int| 0 <= i < records.len() ==> (#[trigger] records[i]).line != Some(u64::MAX)
}

/// Every record that was read stands on the line of a record that was given.
proof fn lemma_parsed_lines(records: Seq<HolidayRecord>)
    requires
        lines_can_be_reported(records),
    ensures
        forall|i: int|
            0 <= i < parsed_of(records).len() ==> (#[trigger] parsed_of(records)[i]).line != Some(
                u64::MAX,
            ),
    decreases records.len(),
{
    if records.len() > 0 {
        assert(records.last() == records[records.len() - 1]);
        assert forall|i: int| 0 <= i < records.drop_last().len() implies (
        #[trigger] records.drop_last()[i]).line != Some(u64::MAX) by {
            assert(records.drop_last()[i] == records[i]);
        }
        lemma_parsed_lines(records.drop_last());
    }
}

/// Reads the date of every record, in order. Stops at the first record whose
/// first field cannot be read as a date, and reports the line of that record.
pub fn load(time_offset: FixedOffset, records: &Vec<HolidayRecord>) -> (loaded: Result<
    Vec<Date>,
    HolidaysLoaderError,
>)
    requires
        lines_can_be_reported(records@),
    ensures
        is_collected(time_offset@, parsed_of(records@), loaded),
{
    let parsed = parse_records(records);
    proof {
        lemma_parsed_lines(records@);
    }
    collect_dates(time_offset, &parsed)
}

} // verus!
