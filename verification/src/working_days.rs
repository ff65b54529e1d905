//! The index of working days: for every day of a range of dates, how many
//! working days its month has had up to and including that day.

use vstd::prelude::*;
use vstd::string::StringExecFns;

use crate::calendar::day_number;
use crate::calendar::is_valid_date;
use crate::calendar::is_weekend_day;
use crate::calendar::lemma_day_number_bounds;
use crate::calendar::lemma_day_number_monotonic;
use crate::calendar::lemma_calendar_order_is_that_of_numbers;
use crate::calendar::lemma_day_with_number;
use crate::calendar::CivilDate;
use crate::calendar::Date;
use crate::calendar::FixedOffset;
use crate::calendar::MAX_YEAR;

verus! {

/// Why no index could be built, or why it has no answer.
#[derive(Debug, PartialEq)]
pub enum WorkingDaysError {
    /// The list of holidays is empty, so there are no years to cover.
    EmptyHolidayList,
    /// The date asked for lies outside the range of the index, which runs
    /// from the first of these dates to the second.
    DateOutOfRange(Date, Date),
}

impl WorkingDaysError {
    /// The error in words; for a date outside the range, with both ends of
    /// the range written out.
    pub open spec fn message(self) -> Seq<char> {
        match self {
            WorkingDaysError::EmptyHolidayList => {
                "The holiday list is empty. Its also used to infer witch years to process."@
            },
            WorkingDaysError::DateOutOfRange(start, end) => {
                "The requested date was not calculated. Table processed for dates between "@
                    + start@.text() + " and "@ + end@.text() + "."@
            },
        }
    }

    /// The error in words.
    pub fn to_string(&self) -> (text: String)
        ensures
            text@ == self.message(),
    {
        match self {
            WorkingDaysError::EmptyHolidayList => String::from_str(
                "The holiday list is empty. Its also used to infer witch years to process.",
            ),
            WorkingDaysError::DateOutOfRange(start, end) => {
                let mut text = String::from_str(
                    "The requested date was not calculated. Table processed for dates between ",
                );
                text.append(start.to_string().as_str());
                text.append(" and ");
                text.append(end.to_string().as_str());
                text.append(".");
                text
            },
        }
    }
}

/// The day numbers of the given holidays.
pub open spec fn holiday_numbers(holidays: Seq<Date>) -> Set<int> {
    Set::new(
        |number: int|
            exists|i: int| 0 <= i < holidays.len() && (#[trigger] holidays[i])@.number() == number,
    )
}

/// Whether the day with the given number is a working day: neither a Saturday
/// or Sunday nor one of the holidays.
pub open spec fn is_working_day(holidays: Set<int>, number: int) -> bool {
    !is_weekend_day(number) && !holidays.contains(number)
}

/// The number of working days among the first `day` days of the given month,
/// leaving out the days before the day with the number `start`.
pub open spec fn working_days_in_month(
    start: int,
    holidays: Set<int>,
    year: int,
    month: int,
    day: int,
) -> nat
    decreases day,
{
    if day <= 0 {
        0
    } else {
        let number = day_number(year, month, day);
        let today: nat = if start <= number && is_working_day(holidays, number) {
            1
        } else {
            0
        };
        working_days_in_month(start, holidays, year, month, day - 1) + today
    }
}

/// The days among the first `day` days of the given month that are working
/// days and do not lie before the day with the number `start`.
pub open spec fn working_days_of_month(
    start: int,
    holidays: Set<int>,
    year: int,
    month: int,
    day: int,
) -> Set<int> {
    Set::new(
        |d: int|
            1 <= d <= day && start <= day_number(year, month, d) && is_working_day(
                holidays,
                day_number(year, month, d),
            ),
    )
}

/// The number of working days of a month is the size of the set of its
/// working days.
pub proof fn lemma_count_is_size_of_set(
    start: int,
    holidays: Set<int>,
    year: int,
    month: int,
    day: int,
)
    requires
        0 <= day,
    ensures
        working_days_of_month(start, holidays, year, month, day).finite(),
        working_days_of_month(start, holidays, year, month, day).len() == working_days_in_month(
            start,
            holidays,
            year,
            month,
            day,
        ),
    decreases day,
{
    let days = working_days_of_month(start, holidays, year, month, day);
    if day == 0 {
        assert(days =~= Set::<int>::empty());
    } else {
        lemma_count_is_size_of_set(start, holidays, year, month, day - 1);
        let before = working_days_of_month(start, holidays, year, month, day - 1);
        let number = day_number(year, month, day);
        if start <= number && is_working_day(holidays, number) {
            assert(days =~= before.insert(day));
        } else {
            assert(days =~= before);
        }
    }
}

/// A month has had no more working days than days.
pub proof fn lemma_working_days_at_most_days(
    start: int,
    holidays: Set<int>,
    year: int,
    month: int,
    day: int,
)
    requires
        0 <= day,
    ensures
        working_days_in_month(start, holidays, year, month, day) <= day,
    decreases day,
{
    if day > 0 {
        lemma_working_days_at_most_days(start, holidays, year, month, day - 1);
    }
}

/// Days before the start count for nothing.
pub proof fn lemma_no_working_days_before_start(
    start: int,
    holidays: Set<int>,
    year: int,
    month: int,
    day: int,
)
    requires
        day_number(year, month, day) < start,
    ensures
        working_days_in_month(start, holidays, year, month, day) == 0,
    decreases day,
{
    if day > 0 {
        lemma_no_working_days_before_start(start, holidays, year, month, day - 1);
    }
}

/// What a [`WorkingDays`] stands for: its offset, the first and last date of
/// its range, and its table, which has one entry for each day of the range.
pub struct WorkingDaysView {
    pub time_offset: int,
    pub start_date: CivilDate,
    pub end_date: CivilDate,
    pub table: Seq<u8>,
}

impl WorkingDaysView {
    /// Whether the range is one of days of the calendar, is not empty, and the
    /// table has one entry for each of its days.
    pub open spec fn wf(self) -> bool {
        &&& self.start_date.is_valid()
        &&& self.end_date.is_valid()
        &&& self.start_date.number() <= self.end_date.number()
        &&& self.table.len() == self.end_date.number() - self.start_date.number() + 1
    }

    /// Whether `date` lies in the range: its number is neither below that of
    /// the first date nor above that of the last.
    pub open spec fn covers(self, date: CivilDate) -> bool {
        self.start_date.number() <= date.number() <= self.end_date.number()
    }

    /// The entry of the table for `date`, where the range covers it.
    pub open spec fn lookup(self, date: CivilDate) -> Option<u8> {
        if self.covers(date) {
            Some(self.table[date.number() - self.start_date.number()])
        } else {
            None
        }
    }

    /// Whether the table holds, for every day of the range, the number of
    /// working days that its month has had from its first day, or from the
    /// start of the range where that is later, up to and including that day.
    pub open spec fn indexes(self, holidays: Set<int>) -> bool {
        is_table_of(self.table, self.start_date.number(), self.end_date.number(), holidays)
    }
}

/// Whether `table` holds, at the place of every day from day number `start`
/// to day number `end`, the number of working days that its month has had up
/// to and including that day, leaving out the days before `start`.
pub open spec fn is_table_of(table: Seq<u8>, start: int, end: int, holidays: Set<int>) -> bool {
    forall|year: int, month: int, day: int|
        is_valid_date(year, month, day) && start <= #[trigger] day_number(year, month, day) <= end
            ==> table[day_number(year, month, day) - start] == working_days_in_month(
            start,
            holidays,
            year,
            month,
            day,
        )
}

/// Within one month the count of working days never goes down from a day to
/// a later day.
pub proof fn lemma_count_never_decreases(
    start: int,
    holidays: Set<int>,
    year: int,
    month: int,
    earlier: int,
    later: int,
)
    requires
        earlier <= later,
    ensures
        working_days_in_month(start, holidays, year, month, earlier) <= working_days_in_month(
            start,
            holidays,
            year,
            month,
            later,
        ),
    decreases later - earlier,
{
    if earlier < later {
        lemma_count_never_decreases(start, holidays, year, month, earlier, later - 1);
    }
}

/// Over days that are not working days the count of working days stays as it was.
pub proof fn lemma_count_unchanged_over_days_off(
    start: int,
    holidays: Set<int>,
    year: int,
    month: int,
    earlier: int,
    later: int,
)
    requires
        0 <= earlier <= later,
        forall|day: int|
            earlier < day <= later ==> !is_working_day(
                holidays,
                #[trigger] day_number(year, month, day),
            ),
    ensures
        working_days_in_month(start, holidays, year, month, earlier) == working_days_in_month(
            start,
            holidays,
            year,
            month,
            later,
        ),
    decreases later - earlier,
{
    if earlier < later {
        lemma_count_unchanged_over_days_off(start, holidays, year, month, earlier, later - 1);
    }
}

/// The index covers the dates that come neither before its first date nor
/// after its last in the calendar.
pub proof fn lemma_covers_from_first_to_last_date(index: WorkingDaysView, date: CivilDate)
    requires
        index.wf(),
        date.is_valid(),
    ensures
        index.covers(date) <==> !date.is_before(index.start_date) && !index.end_date.is_before(date),
{
    lemma_calendar_order_is_that_of_numbers(date, index.start_date);
    lemma_calendar_order_is_that_of_numbers(index.end_date, date);
}

/// What the index holds for a day of its range is the number of working days
/// that the month of that day has had from its first day, or from the start
/// of the range where that is later, up to and including that day.
pub proof fn lemma_lookup_is_count_of_working_days(
    index: WorkingDaysView,
    holidays: Set<int>,
    date: CivilDate,
)
    requires
        index.wf(),
        index.indexes(holidays),
        date.is_valid(),
        index.covers(date),
    ensures
        index.lookup(date).is_some(),
        index.lookup(date).unwrap() == working_days_in_month(
            index.start_date.number(),
            holidays,
            date.year,
            date.month,
            date.day,
        ),
        index.lookup(date).unwrap() <= date.day <= 31,
{
    lemma_working_days_at_most_days(
        index.start_date.number(),
        holidays,
        date.year,
        date.month,
        date.day,
    );
    assert(index.table[day_number(date.year, date.month, date.day) - index.start_date.number()]
        == working_days_in_month(
        index.start_date.number(),
        holidays,
        date.year,
        date.month,
        date.day,
    ));
}

/// Within one calendar month, what the index holds for a day is never more
/// than what it holds for a later day.
pub proof fn lemma_lookup_never_decreases_within_month(
    index: WorkingDaysView,
    holidays: Set<int>,
    earlier: CivilDate,
    later: CivilDate,
)
    requires
        index.wf(),
        index.indexes(holidays),
        earlier.is_valid(),
        later.is_valid(),
        index.covers(earlier),
        index.covers(later),
        earlier.year == later.year,
        earlier.month == later.month,
        earlier.day <= later.day,
    ensures
        index.lookup(earlier).is_some(),
        index.lookup(later).is_some(),
        index.lookup(earlier).unwrap() <= index.lookup(later).unwrap(),
{
    let start = index.start_date.number();
    lemma_lookup_is_count_of_working_days(index, holidays, earlier);
    lemma_lookup_is_count_of_working_days(index, holidays, later);
    lemma_count_never_decreases(start, holidays, later.year, later.month, earlier.day, later.day);
}

/// On the first day of a month the count starts afresh: the index holds 1
/// where that day is a working day and 0 where it is not.
pub proof fn lemma_lookup_starts_afresh_each_month(
    index: WorkingDaysView,
    holidays: Set<int>,
    first: CivilDate,
)
    requires
        index.wf(),
        index.indexes(holidays),
        first.is_valid(),
        index.covers(first),
        first.day == 1,
    ensures
        index.lookup(first) == Some(
            if is_working_day(holidays, first.number()) {
                1u8
            } else {
                0u8
            },
        ),
{
    reveal_with_fuel(working_days_in_month, 2);
    lemma_lookup_is_count_of_working_days(index, holidays, first);
}

/// For a holiday, a Saturday or a Sunday the index holds what it holds for
/// the working day before it, where that working day lies in the same month.
pub proof fn lemma_lookup_on_day_off_is_that_of_last_working_day(
    index: WorkingDaysView,
    holidays: Set<int>,
    working: CivilDate,
    off: CivilDate,
)
    requires
        index.wf(),
        index.indexes(holidays),
        working.is_valid(),
        off.is_valid(),
        index.covers(working),
        index.covers(off),
        working.year == off.year,
        working.month == off.month,
        working.day < off.day,
        is_working_day(holidays, working.number()),
        forall|day: int|
            working.day < day <= off.day ==> !is_working_day(
                holidays,
                #[trigger] day_number(off.year, off.month, day),
            ),
    ensures
        index.lookup(off).is_some(),
        index.lookup(off) == index.lookup(working),
{
    let start = index.start_date.number();
    lemma_lookup_is_count_of_working_days(index, holidays, working);
    lemma_lookup_is_count_of_working_days(index, holidays, off);
    lemma_count_unchanged_over_days_off(start, holidays, off.year, off.month, working.day, off.day);
}

/// Two indexes built for the same range from the same list of holidays hold
/// the same table.
pub proof fn lemma_same_range_and_holidays_same_table(
    start_date: CivilDate,
    end_date: CivilDate,
    holidays: Seq<Date>,
    one: WorkingDaysView,
    other: WorkingDaysView,
)
    requires
        one.wf(),
        other.wf(),
        one.start_date == start_date,
        other.start_date == start_date,
        one.end_date == end_date,
        other.end_date == end_date,
        one.indexes(holiday_numbers(holidays)),
        other.indexes(holiday_numbers(holidays)),
    ensures
        one.table == other.table,
{
    let start = start_date.number();
    let days_off = holiday_numbers(holidays);
    assert forall|k: int| 0 <= k < one.table.len() implies one.table[k] == other.table[k] by {
        let date = lemma_day_with_number(start_date, end_date, start + k);
        lemma_lookup_is_count_of_working_days(one, days_off, date);
        lemma_lookup_is_count_of_working_days(other, days_off, date);
    }
    assert(one.table =~= other.table);
}

/// For each day from day number `first` on, whether it is one of the holidays.
fn holiday_marks(first: i32, len: usize, holidays: &Vec<Date>) -> (marks: Vec<bool>)
    ensures
        marks.len() == len,
        forall|k: int|
            0 <= k < len ==> marks[k] == holiday_numbers(holidays@).contains(first + k),
{
    let mut marks: Vec<bool> = Vec::new();
    while marks.len() < len
        invariant
            marks.len() <= len,
            forall|k: int| 0 <= k < marks.len() ==> !marks[k],
        decreases len - marks.len(),
    {
        marks.push(false);
    }
    let mut j: usize = 0;
    while j < holidays.len()
        invariant
            j <= holidays.len(),
            marks.len() == len,
            forall|k: int|
                0 <= k < len ==> (marks[k] <==> exists|i: int|
                    0 <= i < j && (#[trigger] holidays[i])@.number() == first + k),
        decreases holidays.len() - j,
    {
        let number = holidays[j].num_days_from_ce();
        let place: i64 = number as i64 - first as i64;
        let ghost before = marks@;
        let ghost done = j as int;
        if 0 <= place && (place as u64) < (len as u64) {
            marks.set(place as usize, true);
        }
        proof {
            assert forall|k: int| 0 <= k < len implies (marks[k] <==> exists|i: int|
                0 <= i < done + 1 && (#[trigger] holidays[i])@.number() == first + k) by {
                let among_earlier = exists|i: int|
                    0 <= i < done && (#[trigger] holidays[i])@.number() == first + k;
                assert(before[k] <==> among_earlier);
                if k == place {
                    assert(holidays[done]@.number() == first + k);
                } else if among_earlier {
                    let i = choose|i: int|
                        0 <= i < done && (#[trigger] holidays[i])@.number() == first + k;
                    assert(0 <= i < done + 1 && holidays[i]@.number() == first + k);
                } else if exists|i: int|
                    0 <= i < done + 1 && (#[trigger] holidays[i])@.number() == first + k {
                    let i = choose|i: int|
                        0 <= i < done + 1 && (#[trigger] holidays[i])@.number() == first + k;
                    assert(i == done);
                }
            }
        }
        j = j + 1;
    }
    marks
}

/// Walks the days from `start_date` to `end_date` and notes for each how many
/// working days its month has had so far.
pub fn process_working_days(start_date: &Date, end_date: &Date, holidays: Vec<Date>) -> (data: Vec<
    u8,
>)
    requires
        start_date@.number() <= end_date@.number(),
    ensures
        start_date@.is_valid(),
        end_date@.is_valid(),
        data.len() == end_date@.number() - start_date@.number() + 1,
        is_table_of(
            data@,
            start_date@.number(),
            end_date@.number(),
            holiday_numbers(holidays@),
        ),
{
    let first = start_date.num_days_from_ce();
    let last = end_date.num_days_from_ce();
    proof {
        lemma_day_number_bounds(start_date@.year, start_date@.month, start_date@.day);
        lemma_day_number_bounds(end_date@.year, end_date@.month, end_date@.day);
    }
    let len: usize = (last as i64 - first as i64 + 1) as usize;
    let marks = holiday_marks(first, len, &holidays);
    let ghost days_off = holiday_numbers(holidays@);

    let mut data: Vec<u8> = Vec::with_capacity(len);
    let mut current_date = *start_date;
    let mut wd_count: u8 = 0;
    let mut i: usize = 0;
    proof {
        lemma_no_working_days_before_start(
            first as int,
            days_off,
            start_date@.year,
            start_date@.month,
            start_date@.day - 1,
        );
    }
    while i < len
        invariant
            i <= len,
            len == last - first + 1,
            last == end_date@.number(),
            end_date@.is_valid(),
            data.len() == i,
            marks.len() == len,
            days_off == holiday_numbers(holidays@),
            forall|k: int| 0 <= k < len ==> marks[k] == days_off.contains(first + k),
            i < len ==> current_date@.number() == first + i,
            i < len ==> wd_count == working_days_in_month(
                first as int,
                days_off,
                current_date@.year,
                current_date@.month,
                current_date@.day - 1,
            ),
            is_table_of(data@, first as int, first + i - 1, days_off),
        decreases len - i,
    {
        let ghost today = current_date@;
        let ghost earlier = data@;
        let month = current_date.month();
        proof {
            lemma_working_days_at_most_days(
                first as int,
                days_off,
                today.year,
                today.month,
                today.day - 1,
            );
        }
        if !current_date.is_weekend() && !marks[i] {
            wd_count += 1;
        }
        data.push(wd_count);
        proof {
            assert(wd_count == working_days_in_month(
                first as int,
                days_off,
                today.year,
                today.month,
                today.day,
            ));
            assert forall|y: int, m: int, d: int|
                is_valid_date(y, m, d) && first <= #[trigger] day_number(y, m, d) <= first + i
                implies data@[day_number(y, m, d) - first] == working_days_in_month(
                first as int,
                days_off,
                y,
                m,
                d,
            ) by {
                if day_number(y, m, d) == first + i {
                    lemma_day_number_monotonic(y, m, d, today.year, today.month, today.day);
                } else {
                    assert(data@[day_number(y, m, d) - first] == earlier[day_number(y, m, d)
                        - first]);
                }
            }
        }
        i += 1;
        if i < len {
            proof {
                lemma_day_number_monotonic(
                    today.year,
                    today.month,
                    today.day,
                    end_date@.year,
                    end_date@.month,
                    end_date@.day,
                );
            }
            let next_date = current_date.succ_opt().unwrap();
            if next_date.month() != month {
                wd_count = 0;
            }
            current_date = next_date;
        }
    }
    data
}

/// The index of working days over a range of dates. It is filled once, when
/// it is built, and only read after that.
#[derive(Debug)]
pub struct WorkingDays {
    time_offset: FixedOffset,
    start_date: Date,
    end_date: Date,
    data_offset: i32,
    data: Vec<u8>,
}

impl View for WorkingDays {
    type V = WorkingDaysView;

    closed spec fn view(&self) -> WorkingDaysView {
        WorkingDaysView {
            time_offset: self.time_offset@,
            start_date: self.start_date@,
            end_date: self.end_date@,
            table: self.data@,
        }
    }
}

/// Whether `year` is the year of one of the holidays and none of them lies in
/// an earlier year.
pub open spec fn is_earliest_year(holidays: Seq<Date>, year: int) -> bool {
    &&& exists|i: int| 0 <= i < holidays.len() && (#[trigger] holidays[i])@.year == year
    &&& forall|i: int| 0 <= i < holidays.len() ==> year <= (#[trigger] holidays[i])@.year
}

/// Whether `year` is the year of one of the holidays and none of them lies in
/// a later year.
pub open spec fn is_latest_year(holidays: Seq<Date>, year: int) -> bool {
    &&& exists|i: int| 0 <= i < holidays.len() && (#[trigger] holidays[i])@.year == year
    &&& forall|i: int| 0 <= i < holidays.len() ==> year >= (#[trigger] holidays[i])@.year
}

impl WorkingDays {
    #[verifier::type_invariant]
    spec fn well_formed(self) -> bool {
        self@.wf() && self.data_offset == self.start_date@.number()
    }

    /// Builds the index for the years that the holidays span: from 1 January
    /// of the earliest year among them to 31 December of the latest, both at
    /// the given offset. Fails where there is no holiday at all.
    pub fn build(time_offset: FixedOffset, holidays: Vec<Date>) -> (built: Result<
        WorkingDays,
        WorkingDaysError,
    >)
        ensures
            built.is_err() <==> holidays@.len() == 0,
            built matches Err(error) ==> error == WorkingDaysError::EmptyHolidayList,
            built matches Ok(index) ==> {
                &&& index@.wf()
                &&& index@.time_offset == time_offset@
                &&& index@.start_date.offset == time_offset@
                &&& is_earliest_year(holidays@, index@.start_date.year)
                &&& index@.start_date.month == 1
                &&& index@.start_date.day == 1
                &&& index@.end_date.offset == time_offset@
                &&& is_latest_year(holidays@, index@.end_date.year)
                &&& index@.end_date.month == 12
                &&& index@.end_date.day == 31
                &&& index@.indexes(holiday_numbers(holidays@))
            },
    {
        if holidays.len() == 0 {
            Err(WorkingDaysError::EmptyHolidayList)
        } else {
            let mut earliest: i32 = holidays[0].year();
            let mut latest: i32 = earliest;
            let mut i: usize = 1;
            while i < holidays.len()
                invariant
                    1 <= i <= holidays.len(),
                    crate::calendar::MIN_YEAR <= earliest <= latest <= MAX_YEAR,
                    exists|k: int| 0 <= k < i && (#[trigger] holidays[k])@.year == earliest,
                    exists|k: int| 0 <= k < i && (#[trigger] holidays[k])@.year == latest,
                    forall|k: int|
                        0 <= k < i ==> earliest <= (#[trigger] holidays[k])@.year <= latest,
                decreases holidays.len() - i,
            {
                let year = holidays[i].year();
                if year < earliest {
                    earliest = year;
                }
                if year > latest {
                    latest = year;
                }
                i += 1;
            }
            let start_date = Date::ymd(time_offset, earliest, 1, 1);
            let end_date = Date::ymd(time_offset, latest, 12, 31);
            proof {
                lemma_day_number_monotonic(earliest as int, 1, 1, latest as int, 12, 31);
            }
            Ok(WorkingDays::build_with_range(time_offset, start_date, end_date, holidays))
        }
    }

    /// Builds the index for the days from `start_date` to `end_date`.
    /// Holidays outside that range are left aside.
    pub fn build_with_range(
        time_offset: FixedOffset,
        start_date: Date,
        end_date: Date,
        holidays: Vec<Date>,
    ) -> (index: WorkingDays)
        requires
            start_date@.number() <= end_date@.number(),
        ensures
            index@.wf(),
            index@.time_offset == time_offset@,
            index@.start_date == start_date@,
            index@.end_date == end_date@,
            index@.indexes(holiday_numbers(holidays@)),
    {
        let data_offset = start_date.num_days_from_ce();
        let data = process_working_days(&start_date, &end_date, holidays);
        WorkingDays { time_offset, start_date, end_date, data_offset, data }
    }

    /// The offset from UTC that the index was built for.
    pub fn time_offset(&self) -> (offset: FixedOffset)
        ensures
            offset@ == self@.time_offset,
    {
        self.time_offset
    }

    /// The first date of the range.
    pub fn start_date(&self) -> (date: Date)
        ensures
            date@ == self@.start_date,
            self@.wf(),
    {
        proof {
            use_type_invariant(self);
        }
        self.start_date
    }

    /// The last date of the range.
    pub fn end_date(&self) -> (date: Date)
        ensures
            date@ == self@.end_date,
            self@.wf(),
    {
        proof {
            use_type_invariant(self);
        }
        self.end_date
    }

    /// The number of working days that the month of `date` has had up to and
    /// including `date`, read from the table. Fails for a date outside the
    /// range, and says then what the range is.
    pub fn working_days_mtd(&self, date: Date) -> (found: Result<u8, WorkingDaysError>)
        ensures
            self@.wf(),
            match found {
                Ok(count) => {
                    &&& self@.lookup(date@) == Some(count)
                    &&& forall|holidays: Set<int>| #[trigger]
                        self@.indexes(holidays) ==> count == working_days_in_month(
                            self@.start_date.number(),
                            holidays,
                            date@.year,
                            date@.month,
                            date@.day,
                        )
                },
                Err(error) => {
                    &&& !self@.covers(date@)
                    &&& error matches WorkingDaysError::DateOutOfRange(start, end)
                    &&& start@ == self@.start_date
                    &&& end@ == self@.end_date
                },
            },
    {
        proof {
            use_type_invariant(self);
        }
        let date_days = date.num_days_from_ce();
        let place: i64 = date_days as i64 - self.data_offset as i64;
        if 0 <= place && (place as u64) < (self.data.len() as u64) {
            proof {
                assert forall|holidays: Set<int>| #[trigger]
                    self@.indexes(holidays) implies self.data[place as int]
                    == working_days_in_month(
                    self@.start_date.number(),
                    holidays,
                    date@.year,
                    date@.month,
                    date@.day,
                ) by {
                    lemma_lookup_is_count_of_working_days(self@, holidays, date@);
                }
            }
            Ok(self.data[place as usize])
        } else {
            Err(WorkingDaysError::DateOutOfRange(self.start_date, self.end_date))
        }
    }
}

} // verus!
