//! The temporal resolver: reads a date written as `DD/MM/YYYY` and turns it
//! into the question that is put to the block index.
//!
//! Dates are those of the proleptic Gregorian calendar, in the years 0 to
//! 9999. A date stands for its midnight at a fixed offset from UTC.

use crate::error::PipelineError;
use chrono::FixedOffset;
use chrono::NaiveDate;
use chrono::TimeZone;
use vstd::pervasive::unreached;
use vstd::prelude::*;
use vstd::string::*;

verus! {

/// Seconds east of UTC at which dates are read unless another offset is
/// given: five hours.
pub const DEFAULT_OFFSET_SECONDS: i32 = 18_000;

/// Whether `year` is a leap year.
pub open spec fn is_leap_year(year: int) -> bool {
    year % 4 == 0 && (year % 100 != 0 || year % 400 == 0)
}

/// The number of days of a month.
pub open spec fn days_in_month(year: int, month: int) -> int {
    if month == 2 {
        if is_leap_year(year) {
            29
        } else {
            28
        }
    } else if month == 4 || month == 6 || month == 9 || month == 11 {
        30
    } else {
        31
    }
}

/// Whether the day exists, in the years 0 to 9999.
pub open spec fn is_calendar_date(year: int, month: int, day: int) -> bool {
    &&& 0 <= year <= 9999
    &&& 1 <= month <= 12
    &&& 1 <= day <= days_in_month(year, month)
}

/// The number of leap years from year 1 up to, but without, `year`.
pub open spec fn leap_years_before(year: int) -> int {
    (year - 1) / 4 - (year - 1) / 100 + (year - 1) / 400
}

/// The number of days from 1 January 1970 to 1 January of `year`.
pub open spec fn days_before_year(year: int) -> int {
    365 * (year - 1970) + leap_years_before(year) - leap_years_before(1970)
}

/// The number of days from 1 January to the first of `month`.
pub open spec fn days_before_month(year: int, month: int) -> int
    decreases month,
{
    if month <= 1 {
        0
    } else {
        days_before_month(year, month - 1) + days_in_month(year, month - 1)
    }
}

/// The number of days from 1 January 1970 to the given day.
pub open spec fn days_from_epoch(year: int, month: int, day: int) -> int {
    days_before_year(year) + days_before_month(year, month) + day - 1
}

/// The seconds, leap seconds not counted, from 1 January 1970 0:00:00 UTC
/// to the given time of day on the given day, on a clock that is
/// `offset_seconds` ahead of UTC.
pub open spec fn unix_seconds(
    offset_seconds: int,
    year: int,
    month: int,
    day: int,
    hour: int,
    minute: int,
    second: int,
) -> int {
    days_from_epoch(year, month, day) * 86_400 + hour * 3_600 + minute * 60 + second
        - offset_seconds
}

/// A timestamp as the 64 unsigned bits in which it is sent: one before 1970
/// is sent in two's complement.
pub open spec fn sent_timestamp(seconds: int) -> int {
    if seconds >= 0 {
        seconds
    } else {
        seconds + 0x1_0000_0000_0000_0000
    }
}

/// Whether `c` is one of `0`-`9`.
pub open spec fn is_digit(c: char) -> bool {
    '0' <= c <= '9'
}

/// The number that a digit stands for.
pub open spec fn digit_value(c: char) -> int {
    c as int - '0' as int
}

/// Whether the text has the shape `DD/MM/YYYY`: ten characters, digits but
/// for the two slashes.
pub open spec fn date_shape(text: Seq<char>) -> bool {
    &&& text.len() == 10
    &&& is_digit(text[0])
    &&& is_digit(text[1])
    &&& text[2] == '/'
    &&& is_digit(text[3])
    &&& is_digit(text[4])
    &&& text[5] == '/'
    &&& is_digit(text[6])
    &&& is_digit(text[7])
    &&& is_digit(text[8])
    &&& is_digit(text[9])
}

/// The day that a text of the shape `DD/MM/YYYY` names.
pub open spec fn shape_day(text: Seq<char>) -> int {
    digit_value(text[0]) * 10 + digit_value(text[1])
}

/// The month that a text of the shape `DD/MM/YYYY` names.
pub open spec fn shape_month(text: Seq<char>) -> int {
    digit_value(text[3]) * 10 + digit_value(text[4])
}

/// The year that a text of the shape `DD/MM/YYYY` names.
pub open spec fn shape_year(text: Seq<char>) -> int {
    digit_value(text[6]) * 1000 + digit_value(text[7]) * 100 + digit_value(text[8]) * 10
        + digit_value(text[9])
}

/// Whether the text is a date: it has the shape `DD/MM/YYYY` and the day
/// that it names exists.
pub open spec fn date_text_valid(text: Seq<char>) -> bool {
    date_shape(text) && is_calendar_date(shape_year(text), shape_month(text), shape_day(text))
}

/// A day, as three numbers.
pub struct DateModel {
    pub year: int,
    pub month: int,
    pub day: int,
}

/// The day that a date text names.
pub open spec fn date_of_text(text: Seq<char>) -> DateModel {
    DateModel { year: shape_year(text), month: shape_month(text), day: shape_day(text) }
}

/// A day that exists, in the years 0 to 9999.
#[derive(Clone, Copy, Debug, PartialEq, Eq, Structural)]
pub struct CalendarDate {
    day: u32,
    month: u32,
    year: i32,
}

impl View for CalendarDate {
    type V = DateModel;

    closed spec fn view(&self) -> DateModel {
        DateModel { year: self.year as int, month: self.month as int, day: self.day as int }
    }
}

impl CalendarDate {
    #[verifier::type_invariant]
    spec fn exists_in_calendar(self) -> bool {
        is_calendar_date(self.year as int, self.month as int, self.day as int)
    }

    /// The day, where it exists.
    pub fn new(day: u32, month: u32, year: i32) -> (date: Option<CalendarDate>)
        ensures
            is_calendar_date(year as int, month as int, day as int) ==> date is Some && date->0@
                == (DateModel { year: year as int, month: month as int, day: day as int }),
            !is_calendar_date(year as int, month as int, day as int) ==> date is None,
    {
        if year < 0 || year > 9999 || month < 1 || month > 12 || day < 1 {
            return None;
        }
        if day > month_length(year, month) {
            return None;
        }
        Some(CalendarDate { day, month, year })
    }

    /// The day of the month, from 1.
    pub fn day(&self) -> (day: u32)
        ensures
            day == self@.day,
            1 <= day <= days_in_month(self@.year, self@.month),
    {
        proof {
            use_type_invariant(self);
        }
        self.day
    }

    /// The month, from 1.
    pub fn month(&self) -> (month: u32)
        ensures
            month == self@.month,
            1 <= month <= 12,
    {
        proof {
            use_type_invariant(self);
        }
        self.month
    }

    /// The year.
    pub fn year(&self) -> (year: i32)
        ensures
            year == self@.year,
            0 <= year <= 9999,
    {
        proof {
            use_type_invariant(self);
        }
        self.year
    }
}

/// An offset from UTC of less than a day, in seconds; east is positive.
#[derive(Clone, Copy, Debug, PartialEq, Eq, Structural)]
pub struct UtcOffset {
    seconds: i32,
}

impl View for UtcOffset {
    type V = int;

    closed spec fn view(&self) -> int {
        self.seconds as int
    }
}

impl UtcOffset {
    #[verifier::type_invariant]
    spec fn within_a_day(self) -> bool {
        -86_400 < self.seconds < 86_400
    }

    /// The offset of so many seconds, where that is less than a day.
    pub fn from_seconds(seconds: i32) -> (offset: Option<UtcOffset>)
        ensures
            -86_400 < seconds < 86_400 ==> offset is Some && offset->0@ == seconds,
            !(-86_400 < seconds < 86_400) ==> offset is None,
    {
        if -86_400 < seconds && seconds < 86_400 {
            Some(UtcOffset { seconds })
        } else {
            None
        }
    }

    /// The offset in seconds.
    pub fn seconds(&self) -> (seconds: i32)
        ensures
            seconds == self@,
            -86_400 < seconds < 86_400,
    {
        proof {
            use_type_invariant(self);
        }
        self.seconds
    }
}

impl Default for UtcOffset {
    /// Five hours east of UTC.
    fn default() -> (offset: UtcOffset)
        ensures
            offset@ == DEFAULT_OFFSET_SECONDS,
    {
        UtcOffset { seconds: DEFAULT_OFFSET_SECONDS }
    }
}

/// Whether `year` is a leap year.
pub fn leap_year(year: i32) -> (leap: bool)
    ensures
        leap == is_leap_year(year as int),
{
    year % 4 == 0 && (year % 100 != 0 || year % 400 == 0)
}

/// The number of days of a month.
pub fn month_length(year: i32, month: u32) -> (days: u32)
    ensures
        days == days_in_month(year as int, month as int),
{
    if month == 2 {
        if leap_year(year) {
            29
        } else {
            28
        }
    } else if month == 4 || month == 6 || month == 9 || month == 11 {
        30
    } else {
        31
    }
}

/// The digit at a place of the text, where there is one.
fn digit_at(text: &str, place: usize) -> (digit: Option<u32>)
    requires
        place < text@.len(),
    ensures
        is_digit(text@[place as int]) ==> digit == Some(digit_value(text@[place as int]) as u32),
        !is_digit(text@[place as int]) ==> digit is None,
{
    let c: char = text.get_char(place);
    if '0' <= c && c <= '9' {
        Some(c as u32 - '0' as u32)
    } else {
        None
    }
}

/// The number that the digits at `count` places from `start` spell, where
/// all of them are digits.
fn number_at(text: &str, start: usize, count: usize) -> (number: Option<u32>)
    requires
        start + count <= text@.len() <= usize::MAX,
        count <= 4,
    ensures
        number is Some <==> forall|k: int| start <= k < start + count ==> is_digit(text@[k]),
        number is Some ==> number->0 == spelled(text@.subrange(start as int, start + count)),
{
    let mut number: u32 = 0;
    let mut i: usize = 0;
    while i < count
        invariant
            i <= count <= 4,
            start + count <= text@.len() <= usize::MAX,
            forall|k: int| start <= k < start + i ==> is_digit(text@[k]),
            number == spelled(text@.subrange(start as int, start + i)),
            number < pow10(i as int),
        decreases count - i,
    {
        match digit_at(text, start + i) {
            Some(digit) => {
                proof {
                    let longer = text@.subrange(start as int, start + i + 1);
                    assert(longer.drop_last() =~= text@.subrange(start as int, start + i));
                    assert(longer.last() == text@[start + i]);
                }
                number = number * 10 + digit;
            },
            None => {
                return None;
            },
        }
        i += 1;
    }
    Some(number)
}

/// Ten to a small power.
spec fn pow10(exponent: int) -> int {
    if exponent <= 0 {
        1
    } else if exponent == 1 {
        10
    } else if exponent == 2 {
        100
    } else if exponent == 3 {
        1000
    } else {
        10000
    }
}

/// The number that a run of digits spells.
spec fn spelled(digits: Seq<char>) -> int
    decreases digits.len(),
{
    if digits.len() == 0 {
        0
    } else {
        spelled(digits.drop_last()) * 10 + digit_value(digits.last())
    }
}

/// `NaiveDate::parse_from_str` of chrono, and whether it gave a date.
/// Of a text of the shape `DD/MM/YYYY`, under the format `%d/%m/%Y`, it
/// gives one exactly where the day that the text names exists.
#[verifier::external_body]
fn naive_date_parses(text: &str, format: &str) -> (parses: bool)
    requires
        date_shape(text@),
        format@ == "%d/%m/%Y"@,
    ensures
        parses == is_calendar_date(shape_year(text@), shape_month(text@), shape_day(text@)),
{
    NaiveDate::parse_from_str(text, format).is_ok()
}

/// `FixedOffset::east_opt`, `TimeZone::with_ymd_and_hms` and
/// `DateTime::timestamp` of chrono, one after the other: the UNIX timestamp
/// of a time of day on a day, on a clock so many seconds east of UTC. For
/// an offset of less than a day, a day that exists and a time of day that
/// exists there is one, and it counts the days since 1 January 1970 at
/// 86 400 seconds each. Nothing is claimed of other arguments.
#[verifier::external_body]
fn local_timestamp(
    offset_seconds: i32,
    year: i32,
    month: u32,
    day: u32,
    hour: u32,
    minute: u32,
    second: u32,
) -> (seconds: Option<i64>)
    ensures
        -86_400 < offset_seconds < 86_400 && is_calendar_date(
            year as int,
            month as int,
            day as int,
        ) && hour < 24 && minute < 60 && second < 60 ==> seconds == Some(
            unix_seconds(
                offset_seconds as int,
                year as int,
                month as int,
                day as int,
                hour as int,
                minute as int,
                second as int,
            ) as i64,
        ),
{
    let zone = FixedOffset::east_opt(offset_seconds)?;
    let moment = zone.with_ymd_and_hms(year, month, day, hour, minute, second).single()?;
    Some(moment.timestamp())
}

/// Reads a date written as `DD/MM/YYYY`.
pub fn format_date(date: &str) -> (parsed: Result<CalendarDate, PipelineError>)
    ensures
        date_text_valid(date@) ==> parsed is Ok && parsed->Ok_0@ == date_of_text(date@),
        !date_text_valid(date@) ==> parsed == Err::<CalendarDate, PipelineError>(
            PipelineError::InvalidDateFormat,
        ),
{
    if date.unicode_len() != 10 {
        return Err(PipelineError::InvalidDateFormat);
    }
    if date.get_char(2) != '/' || date.get_char(5) != '/' {
        return Err(PipelineError::InvalidDateFormat);
    }
    let fields = (number_at(date, 0, 2), number_at(date, 3, 2), number_at(date, 6, 4));
    match fields {
        (Some(day), Some(month), Some(year)) => {
            proof {
                lemma_spelled_two(date@.subrange(0, 2));
                lemma_spelled_two(date@.subrange(3, 5));
                lemma_spelled_four(date@.subrange(6, 10));
                assert(is_digit(date@[0]) && is_digit(date@[1]));
                assert(is_digit(date@[3]) && is_digit(date@[4]));
                assert(is_digit(date@[6]) && is_digit(date@[7]) && is_digit(date@[8]) && is_digit(
                    date@[9],
                ));
            }
            if naive_date_parses(date, "%d/%m/%Y") {
                Ok(CalendarDate { day, month, year: year as i32 })
            } else {
                Err(PipelineError::InvalidDateFormat)
            }
        },
        _ => Err(PipelineError::InvalidDateFormat),
    }
}

/// What two digits spell.
proof fn lemma_spelled_two(digits: Seq<char>)
    requires
        digits.len() == 2,
    ensures
        spelled(digits) == digit_value(digits[0]) * 10 + digit_value(digits[1]),
{
    reveal_with_fuel(spelled, 3);
    assert(digits.drop_last().drop_last().len() == 0);
}

/// What four digits spell.
proof fn lemma_spelled_four(digits: Seq<char>)
    requires
        digits.len() == 4,
    ensures
        spelled(digits) == digit_value(digits[0]) * 1000 + digit_value(digits[1]) * 100
            + digit_value(digits[2]) * 10 + digit_value(digits[3]),
{
    reveal_with_fuel(spelled, 5);
    assert(digits.drop_last().drop_last().drop_last().drop_last().len() == 0);
}

/// The UNIX timestamp of the midnight with which the day begins on a clock
/// at the given offset.
pub fn midnight_timestamp(date: &CalendarDate, offset: &UtcOffset) -> (seconds: i64)
    ensures
        seconds == unix_seconds(offset@, date@.year, date@.month, date@.day, 0, 0, 0),
{
    proof {
        use_type_invariant(date);
        use_type_invariant(offset);
    }
    match local_timestamp(offset.seconds, date.year, date.month, date.day, 0, 0, 0) {
        Some(seconds) => {
            proof {
                lemma_timestamp_range(offset@, date@.year, date@.month, date@.day);
            }
            seconds
        },
        None => unreached(),
    }
}

/// The midnights of the years 0 to 9999 are within 2^39 seconds of 1970.
pub proof fn lemma_timestamp_range(offset_seconds: int, year: int, month: int, day: int)
    requires
        -86_400 < offset_seconds < 86_400,
        is_calendar_date(year, month, day),
    ensures
        -0x80_0000_0000 < unix_seconds(offset_seconds, year, month, day, 0, 0, 0)
            < 0x80_0000_0000,
{
    reveal_with_fuel(days_before_month, 13);
    assert(0 <= days_before_month(year, month) <= 335);
}

/// On which side of the moment the block is looked for.
#[derive(Clone, Copy, Debug, PartialEq, Eq, Structural)]
pub enum Closest {
    /// The last block at or before the moment.
    Before,
    /// The first block at or after the moment.
    After,
}

impl Closest {
    /// The word for the side in the question to the block index.
    pub open spec fn spec_keyword(self) -> Seq<char> {
        match self {
            Closest::Before => "before"@,
            Closest::After => "after"@,
        }
    }

    /// The word for the side in the question to the block index.
    pub fn keyword(self) -> (word: &'static str)
        ensures
            word@ == self.spec_keyword(),
    {
        match self {
            Closest::Before => "before",
            Closest::After => "after",
        }
    }
}

/// The question put to the block index.
#[derive(Clone, Copy, Debug, PartialEq, Eq, Structural)]
pub struct BlockQuery {
    /// The moment, as a UNIX timestamp.
    pub timestamp: u64,
    /// The side on which the block is looked for.
    pub closest: Closest,
}

/// The question for the first block at or after the midnight with which
/// the day begins.
pub fn get_blocks(date: &CalendarDate, offset: &UtcOffset) -> (query: BlockQuery)
    ensures
        query.closest == Closest::After,
        query.timestamp == sent_timestamp(
            unix_seconds(offset@, date@.year, date@.month, date@.day, 0, 0, 0),
        ),
{
    let seconds: i64 = midnight_timestamp(date, offset);
    let timestamp: u64 = if seconds >= 0 {
        seconds as u64
    } else {
        u64::MAX - ((-(seconds + 1)) as u64)
    };
    BlockQuery { timestamp, closest: Closest::After }
}

} // verus!
