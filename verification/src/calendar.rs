//! Calendar days of the proleptic Gregorian calendar, fixed UTC offsets and
//! times of day.

use vstd::prelude::*;
use vstd::std_specs::cmp::PartialEqSpecImpl;

use crate::bridge::date_from_text;
use crate::bridge::date_to_text;
use crate::bridge::format_date;
use crate::bridge::parse_date;
use crate::bridge::read_clock;

verus! {

/// The earliest year a [`Date`] can lie in.
pub const MIN_YEAR: i32 = -262143;

/// The latest year a [`Date`] can lie in.
pub const MAX_YEAR: i32 = 262142;

/// Whether `year` has a 29th of February.
pub open spec fn is_leap_year(year: int) -> bool {
    year % 4 == 0 && (year % 100 != 0 || year % 400 == 0)
}

/// The number of days of the given month.
pub open spec fn days_in_month(year: int, month: int) -> int {
    if month == 2 {
        if is_leap_year(year) {
            29
        } else {
            28
        }
    } else if month == 4 || month == 6 || month == 9 || month == 11 {
        30
    } else {
        31
    }
}

/// The number of days of `year`.
pub open spec fn year_length(year: int) -> int {
    if is_leap_year(year) {
        366
    } else {
        365
    }
}

/// The number of days of `year` that lie before the first day of `month`.
pub open spec fn days_before_month(year: int, month: int) -> int
    decreases month,
{
    if month <= 1 {
        0
    } else {
        days_before_month(year, month - 1) + days_in_month(year, month - 1)
    }
}

/// The number of days between 1 January of year 1 and 1 January of `year`;
/// negative for years before year 1.
pub open spec fn days_before_year(year: int) -> int {
    let y = year - 1;
    365 * y + y / 4 - y / 100 + y / 400
}

/// Whether year, month and day name a day of the calendar that a [`Date`] can hold.
pub open spec fn is_valid_date(year: int, month: int, day: int) -> bool {
    &&& MIN_YEAR <= year <= MAX_YEAR
    &&& 1 <= month <= 12
    &&& 1 <= day <= days_in_month(year, month)
}

/// The count of days from 1 January of year 1, which is day 1, to the given day.
pub open spec fn day_number(year: int, month: int, day: int) -> int {
    days_before_year(year) + days_before_month(year, month) + day
}

/// Whether the day with the given number is a Saturday or a Sunday.
/// Day 1 is a Monday.
pub open spec fn is_weekend_day(number: int) -> bool {
    number % 7 == 6 || number % 7 == 0
}

/// A later month of the same year starts later.
pub proof fn lemma_days_before_month_monotonic(year: int, earlier: int, later: int)
    requires
        1 <= earlier <= later,
    ensures
        days_before_month(year, earlier) <= days_before_month(year, later),
        earlier < later ==> days_before_month(year, earlier) + days_in_month(year, earlier)
            <= days_before_month(year, later),
    decreases later - earlier,
{
    if earlier < later {
        lemma_days_before_month_monotonic(year, earlier, later - 1);
    }
}

/// No month starts later than the 335th day of its year.
pub proof fn lemma_days_before_month_bounds(year: int, month: int)
    requires
        1 <= month <= 12,
    ensures
        0 <= days_before_month(year, month) <= 335,
        days_before_month(year, month) + days_in_month(year, month) <= year_length(year),
        days_before_month(year, 12) + 31 == year_length(year),
{
    reveal_with_fuel(days_before_month, 13);
}

/// The next year starts as many days after this one as this one has.
pub proof fn lemma_year_length(year: int)
    ensures
        days_before_year(year + 1) == days_before_year(year) + year_length(year),
{
}

/// The day numbers of all the days that a [`Date`] can hold fit in 32 bits
/// with room to spare.
pub proof fn lemma_day_number_bounds(year: int, month: int, day: int)
    requires
        is_valid_date(year, month, day),
    ensures
        -95746130 < day_number(year, month, day) <= 95745400,
{
    lemma_days_before_month_bounds(year, month);
}

/// A later year starts later.
pub proof fn lemma_days_before_year_monotonic(earlier: int, later: int)
    requires
        earlier <= later,
    ensures
        days_before_year(earlier) + 365 * (later - earlier) <= days_before_year(later),
    decreases later - earlier,
{
    if earlier < later {
        lemma_days_before_year_monotonic(earlier, later - 1);
        lemma_year_length(later - 1);
    }
}

/// The day number orders days as year, month and day do, and no two days
/// have the same number.
pub proof fn lemma_day_number_monotonic(y1: int, m1: int, d1: int, y2: int, m2: int, d2: int)
    requires
        is_valid_date(y1, m1, d1),
        is_valid_date(y2, m2, d2),
    ensures
        (y1 < y2 || (y1 == y2 && (m1 < m2 || (m1 == m2 && d1 < d2)))) <==> day_number(y1, m1, d1)
            < day_number(y2, m2, d2),
        (y1 == y2 && m1 == m2 && d1 == d2) <==> day_number(y1, m1, d1) == day_number(y2, m2, d2),
{
    if y1 < y2 || (y1 == y2 && (m1 < m2 || (m1 == m2 && d1 < d2))) {
        lemma_day_number_strictly_increasing(y1, m1, d1, y2, m2, d2);
    } else if !(y1 == y2 && m1 == m2 && d1 == d2) {
        lemma_day_number_strictly_increasing(y2, m2, d2, y1, m1, d1);
    }
}

proof fn lemma_day_number_strictly_increasing(y1: int, m1: int, d1: int, y2: int, m2: int, d2: int)
    requires
        is_valid_date(y1, m1, d1),
        is_valid_date(y2, m2, d2),
        y1 < y2 || (y1 == y2 && (m1 < m2 || (m1 == m2 && d1 < d2))),
    ensures
        day_number(y1, m1, d1) < day_number(y2, m2, d2),
{
    lemma_days_before_month_bounds(y1, m1);
    lemma_days_before_month_bounds(y2, m2);
    if y1 < y2 {
        lemma_year_length(y1);
        lemma_days_before_year_monotonic(y1 + 1, y2);
    } else if m1 < m2 {
        lemma_days_before_month_monotonic(y1, m1, m2);
    }
}

/// A fixed offset from UTC: the seconds by which local time is ahead of UTC,
/// always less than a day in either direction.
#[derive(Clone, Copy, Debug)]
pub struct FixedOffset {
    local_minus_utc: i32,
}

impl View for FixedOffset {
    type V = int;

    /// The seconds by which local time is ahead of UTC.
    closed spec fn view(&self) -> int {
        self.local_minus_utc as int
    }
}

/// Whether an offset of `secs` seconds is less than a day.
pub open spec fn is_valid_offset(secs: int) -> bool {
    -86400 < secs < 86400
}

impl FixedOffset {
    #[verifier::type_invariant]
    spec fn in_bounds(self) -> bool {
        is_valid_offset(self.local_minus_utc as int)
    }

    /// The offset `secs` seconds east of Greenwich, if that is less than a day.
    pub fn east_opt(secs: i32) -> (offset: Option<FixedOffset>)
        ensures
            offset.is_some() <==> is_valid_offset(secs as int),
            offset matches Some(o) ==> o@ == secs,
    {
        if -86400 < secs && secs < 86400 {
            Some(FixedOffset { local_minus_utc: secs })
        } else {
            None
        }
    }

    /// The offset `secs` seconds west of Greenwich, if that is less than a day.
    pub fn west_opt(secs: i32) -> (offset: Option<FixedOffset>)
        ensures
            offset.is_some() <==> is_valid_offset(secs as int),
            offset matches Some(o) ==> o@ == -secs,
    {
        if -86400 < secs && secs < 86400 {
            Some(FixedOffset { local_minus_utc: -secs })
        } else {
            None
        }
    }

    /// The offset `secs` seconds east of Greenwich.
    pub fn east(secs: i32) -> (offset: FixedOffset)
        requires
            is_valid_offset(secs as int),
        ensures
            offset@ == secs,
    {
        FixedOffset { local_minus_utc: secs }
    }

    /// The offset `secs` seconds west of Greenwich.
    pub fn west(secs: i32) -> (offset: FixedOffset)
        requires
            is_valid_offset(secs as int),
        ensures
            offset@ == -secs,
    {
        FixedOffset { local_minus_utc: -secs }
    }

    /// The seconds by which local time is ahead of UTC.
    pub fn local_minus_utc(&self) -> (secs: i32)
        ensures
            secs == self@,
            is_valid_offset(secs as int),
    {
        proof {
            use_type_invariant(self);
        }
        self.local_minus_utc
    }
}

/// What a [`Date`] stands for: a day of the calendar, and the offset from UTC
/// that it is shown with.
pub struct CivilDate {
    pub offset: int,
    pub year: int,
    pub month: int,
    pub day: int,
}

impl CivilDate {
    /// Whether this is a day of the calendar with an offset of less than a day.
    pub open spec fn is_valid(self) -> bool {
        is_valid_offset(self.offset) && is_valid_date(self.year, self.month, self.day)
    }

    /// The count of days from 1 January of year 1, which is day 1, to this day.
    pub open spec fn number(self) -> int {
        day_number(self.year, self.month, self.day)
    }

    /// Whether both are the same day of the calendar, whatever their offsets.
    pub open spec fn same_day(self, other: CivilDate) -> bool {
        self.year == other.year && self.month == other.month && self.day == other.day
    }

    /// Whether `self` comes before `other` in the calendar: by the year
    /// first, then by the month, then by the day.
    pub open spec fn is_before(self, other: CivilDate) -> bool {
        self.year < other.year || (self.year == other.year && (self.month < other.month || (
        self.month == other.month && self.day < other.day)))
    }

    /// The date written out, followed by its offset.
    pub open spec fn text(self) -> Seq<char> {
        date_to_text(self.offset, self.year, self.month, self.day)
    }
}

/// A day of the proleptic Gregorian calendar, shown with a fixed offset from UTC.
///
/// Two dates are equal when they are the same day of the calendar; the offset
/// only matters where a date is written out.
#[derive(Clone, Copy, Debug)]
pub struct Date {
    offset: FixedOffset,
    year: i32,
    month: u32,
    day: u32,
}

impl View for Date {
    type V = CivilDate;

    closed spec fn view(&self) -> CivilDate {
        CivilDate {
            offset: self.offset@,
            year: self.year as int,
            month: self.month as int,
            day: self.day as int,
        }
    }
}

impl Date {
    #[verifier::type_invariant]
    spec fn is_calendar_day(self) -> bool {
        self@.is_valid()
    }

    /// The given day of the calendar, if there is such a day.
    pub fn ymd_opt(offset: FixedOffset, year: i32, month: u32, day: u32) -> (date: Option<Date>)
        ensures
            date.is_some() <==> is_valid_date(year as int, month as int, day as int),
            date matches Some(d) ==> d@ == (CivilDate {
                offset: offset@,
                year: year as int,
                month: month as int,
                day: day as int,
            }),
    {
        if MIN_YEAR <= year && year <= MAX_YEAR && 1 <= month && month <= 12 && 1 <= day && day
            <= month_length(year, month) {
            proof {
                use_type_invariant(offset);
            }
            Some(Date { offset, year, month, day })
        } else {
            None
        }
    }

    /// The given day of the calendar.
    pub fn ymd(offset: FixedOffset, year: i32, month: u32, day: u32) -> (date: Date)
        requires
            is_valid_date(year as int, month as int, day as int),
        ensures
            date@ == (CivilDate {
                offset: offset@,
                year: year as int,
                month: month as int,
                day: day as int,
            }),
    {
        proof {
            use_type_invariant(offset);
        }
        Date { offset, year, month, day }
    }

    /// The offset that this date is shown with.
    pub fn offset(&self) -> (offset: FixedOffset)
        ensures
            offset@ == self@.offset,
    {
        self.offset
    }

    /// The year of this date.
    pub fn year(&self) -> (year: i32)
        ensures
            year == self@.year,
            self@.is_valid(),
    {
        proof {
            use_type_invariant(self);
        }
        self.year
    }

    /// The month of this date, from 1 for January to 12.
    pub fn month(&self) -> (month: u32)
        ensures
            month == self@.month,
            self@.is_valid(),
    {
        proof {
            use_type_invariant(self);
        }
        self.month
    }

    /// The day of the month of this date, from 1.
    pub fn day(&self) -> (day: u32)
        ensures
            day == self@.day,
            self@.is_valid(),
    {
        proof {
            use_type_invariant(self);
        }
        self.day
    }

    /// The count of days from 1 January of year 1, which is day 1, to this date.
    pub fn num_days_from_ce(&self) -> (number: i32)
        ensures
            number == self@.number(),
            self@.is_valid(),
    {
        proof {
            use_type_invariant(self);
            lemma_days_before_month_bounds(self.year as int, self.month as int);
        }
        let before_year = year_start(self.year);
        let before_month = month_start(self.year, self.month);
        (before_year + before_month as i64 + self.day as i64) as i32
    }

    /// Whether this date is a Saturday or a Sunday.
    pub fn is_weekend(&self) -> (weekend: bool)
        ensures
            weekend == is_weekend_day(self@.number()),
    {
        let number = self.num_days_from_ce();
        proof {
            lemma_day_number_bounds(self@.year, self@.month, self@.day);
        }
        // Shifted by a multiple of 7 that makes every day number positive.
        let shifted: i64 = number as i64 + 7 * 20000000;
        let weekday = shifted % 7;
        weekday == 6 || weekday == 0
    }

    /// The day that was read from a text, if one was read and it is a day of
    /// the calendar.
    pub fn from_parsed(offset: FixedOffset, parsed: Option<(i32, u32, u32)>) -> (date: Option<Date>)
        ensures
            match date {
                Some(date) => day_of_parsed(offset@, parsed) == Some(date@),
                None => day_of_parsed(offset@, parsed).is_none(),
            },
    {
        match parsed {
            Some((year, month, day)) => Date::ymd_opt(offset, year, month, day),
            None => None,
        }
    }

    /// The day that `text` names as year, month and day, with hyphens between them.
    pub fn parse_from_str(offset: FixedOffset, text: &str) -> (date: Option<Date>)
        ensures
            match date {
                Some(date) => day_of_parsed(offset@, date_from_text(text@)) == Some(date@),
                None => day_of_parsed(offset@, date_from_text(text@)).is_none(),
            },
    {
        Date::from_parsed(offset, parse_date(text))
    }

    /// The date written out, followed by its offset.
    pub fn to_string(&self) -> (text: String)
        ensures
            text@ == self@.text(),
    {
        proof {
            use_type_invariant(self);
        }
        format_date(self.offset.local_minus_utc(), self.year, self.month, self.day)
    }

    /// The day after this one, if a date can hold it.
    pub fn succ_opt(&self) -> (next: Option<Date>)
        ensures
            self@.is_valid(),
            next.is_none() <==> (self@.year == MAX_YEAR && self@.month == 12 && self@.day == 31),
            next matches Some(n) ==> {
                &&& n@.is_valid()
                &&& n@.offset == self@.offset
                &&& n@.number() == self@.number() + 1
                &&& n@ == next_day(self@)
            },
    {
        proof {
            use_type_invariant(self);
            lemma_next_day(self@);
        }
        if self.day < month_length(self.year, self.month) {
            Some(
                Date { offset: self.offset, year: self.year, month: self.month, day: self.day + 1 },
            )
        } else if self.month < 12 {
            Some(Date { offset: self.offset, year: self.year, month: self.month + 1, day: 1 })
        } else if self.year < MAX_YEAR {
            Some(Date { offset: self.offset, year: self.year + 1, month: 1, day: 1 })
        } else {
            None
        }
    }
}

/// The days of the calendar come in the order of their numbers.
pub proof fn lemma_calendar_order_is_that_of_numbers(one: CivilDate, other: CivilDate)
    requires
        one.is_valid(),
        other.is_valid(),
    ensures
        one.is_before(other) <==> one.number() < other.number(),
        one.same_day(other) <==> one.number() == other.number(),
{
    lemma_day_number_monotonic(
        one.year,
        one.month,
        one.day,
        other.year,
        other.month,
        other.day,
    );
}

/// The day that a year, month and day read from a text stand for at the
/// given offset: there must be such numbers, and they must name a day of the
/// calendar.
pub open spec fn day_of_parsed(offset: int, parsed: Option<(i32, u32, u32)>) -> Option<CivilDate> {
    match parsed {
        Some((year, month, day)) => if is_valid_date(year as int, month as int, day as int) {
            Some(CivilDate { offset, year: year as int, month: month as int, day: day as int })
        } else {
            None
        },
        None => None,
    }
}

/// The day after `date`: the next day of its month, else the first day of the
/// next month, else of the next year.
pub open spec fn next_day(date: CivilDate) -> CivilDate {
    if date.day < days_in_month(date.year, date.month) {
        CivilDate { day: date.day + 1, ..date }
    } else if date.month < 12 {
        CivilDate { month: date.month + 1, day: 1, ..date }
    } else {
        CivilDate { year: date.year + 1, month: 1, day: 1, ..date }
    }
}

/// The day after a day of the calendar has the next day number, and is a day
/// of the calendar too unless the year is past the last one.
pub proof fn lemma_next_day(date: CivilDate)
    requires
        date.is_valid(),
    ensures
        next_day(date).number() == date.number() + 1,
        next_day(date).year <= MAX_YEAR ==> next_day(date).is_valid(),
{
    lemma_days_before_month_bounds(date.year, date.month);
    lemma_year_length(date.year);
    reveal_with_fuel(days_before_month, 2);
}

/// Every day number between those of two days of the calendar is the number
/// of a day of the calendar.
pub proof fn lemma_day_with_number(from: CivilDate, to: CivilDate, number: int) -> (date: CivilDate)
    requires
        from.is_valid(),
        to.is_valid(),
        from.number() <= number <= to.number(),
    ensures
        date.is_valid(),
        date.number() == number,
        date.offset == from.offset,
    decreases number - from.number(),
{
    if number == from.number() {
        from
    } else {
        let before = lemma_day_with_number(from, to, number - 1);
        lemma_next_day(before);
        lemma_day_number_monotonic(
            before.year,
            before.month,
            before.day,
            to.year,
            to.month,
            to.day,
        );
        next_day(before)
    }
}

/// Whether `year` has a 29th of February.
fn leap_year(year: i32) -> (leap: bool)
    requires
        MIN_YEAR <= year <= MAX_YEAR,
    ensures
        leap == is_leap_year(year as int),
{
    // Shifted by a multiple of 400 years that makes every year positive.
    let shifted: i32 = year + 262400;
    shifted % 4 == 0 && (shifted % 100 != 0 || shifted % 400 == 0)
}

/// The number of days of the given month.
fn month_length(year: i32, month: u32) -> (length: u32)
    requires
        MIN_YEAR <= year <= MAX_YEAR,
    ensures
        length == days_in_month(year as int, month as int),
{
    if month == 2 {
        if leap_year(year) {
            29
        } else {
            28
        }
    } else if month == 4 || month == 6 || month == 9 || month == 11 {
        30
    } else {
        31
    }
}

/// The number of days of `year` that lie before the first day of `month`.
fn month_start(year: i32, month: u32) -> (days: u32)
    requires
        MIN_YEAR <= year <= MAX_YEAR,
        1 <= month <= 12,
    ensures
        days == days_before_month(year as int, month as int),
{
    let mut days: u32 = 0;
    let mut m: u32 = 1;
    while m < month
        invariant
            MIN_YEAR <= year <= MAX_YEAR,
            1 <= m <= month <= 12,
            days == days_before_month(year as int, m as int),
            days <= 31 * (m - 1),
        decreases month - m,
    {
        days = days + month_length(year, m);
        m = m + 1;
    }
    days
}

/// The number of days between 1 January of year 1 and 1 January of `year`.
fn year_start(year: i32) -> (days: i64)
    requires
        MIN_YEAR <= year <= MAX_YEAR,
    ensures
        days == days_before_year(year as int),
{
    // Shifted by 656 cycles of 400 years, of 146097 days each, so that the
    // divisions are of positive numbers.
    let y: i64 = year as i64 - 1 + 400 * 656;
    365 * y + y / 4 - y / 100 + y / 400 - 656 * 146097
}

impl PartialEq for Date {
    /// Whether both are the same day of the calendar, whatever their offsets.
    fn eq(&self, other: &Date) -> (same: bool) {
        self.year == other.year && self.month == other.month && self.day == other.day
    }
}

impl Eq for Date {
}

impl PartialEqSpecImpl for Date {
    open spec fn obeys_eq_spec() -> bool {
        true
    }

    open spec fn eq_spec(&self, other: &Date) -> bool {
        self@.same_day(other@)
    }
}

/// A time of day: the whole seconds since midnight, and the nanoseconds since
/// the last whole second. A nanosecond count of a thousand million or more
/// stands for a leap second.
#[derive(Clone, Copy, Debug, PartialEq, Eq, Structural)]
pub struct TimeOfDay {
    pub secs: u32,
    pub frac: u32,
}

impl TimeOfDay {
    /// Whether `self` is no later than `other`: by the seconds first, then by
    /// the nanoseconds.
    pub open spec fn is_at_or_before(self, other: TimeOfDay) -> bool {
        self.secs < other.secs || (self.secs == other.secs && self.frac <= other.frac)
    }

    /// The time that many hours, minutes and seconds after midnight, if each
    /// is within its range.
    pub fn from_hms_opt(hour: u32, min: u32, sec: u32) -> (time: Option<TimeOfDay>)
        ensures
            time.is_some() <==> hour < 24 && min < 60 && sec < 60,
            time matches Some(t) ==> t.secs == hour * 3600 + min * 60 + sec && t.frac == 0,
    {
        if hour < 24 && min < 60 && sec < 60 {
            Some(TimeOfDay { secs: hour * 3600 + min * 60 + sec, frac: 0 })
        } else {
            None
        }
    }

    /// Whether `self` is no later than `other`.
    pub fn le(&self, other: &TimeOfDay) -> (before: bool)
        ensures
            before == self.is_at_or_before(*other),
    {
        self.secs < other.secs || (self.secs == other.secs && self.frac <= other.frac)
    }
}

/// A moment on the clock of one offset: the local date and the local time of day.
#[derive(Clone, Copy, Debug)]
pub struct DateTime {
    pub date: Date,
    pub time: TimeOfDay,
}

impl DateTime {
    /// The moment that the clock shows, on the clock of the given offset.
    pub fn now(offset: FixedOffset) -> (now: DateTime)
        ensures
            now.date@.offset == offset@,
    {
        let (year, month, day, secs, frac) = read_clock(offset.local_minus_utc());
        DateTime { date: Date::ymd(offset, year, month, day), time: TimeOfDay { secs, frac } }
    }
}

} // verus!
