use vstd::prelude::*;

verus! {

/// `chrono::NaiveDate`, carried as it is from the parser to the clock arithmetic below.
#[verifier::external_type_specification]
#[verifier::external_body]
pub struct ExNaiveDate(chrono::NaiveDate);

/// The number of a date's day in the proleptic Gregorian calendar, where January 1 of the
/// year 1 is day 1.
pub uninterp spec fn day_number(date: chrono::NaiveDate) -> int;

/// The day number of the date that `chrono::NaiveDate::parse_from_str` reads from a text
/// by a format, where it reads one.
pub uninterp spec fn parsed_day(text: Seq<char>, format: Seq<char>) -> Option<int>;

/// The day number of January 1, 1970.
pub const UNIX_EPOCH_DAY: i64 = 719_163;

/// The seconds in a day.
pub const SECONDS_PER_DAY: i64 = 86_400;

/// The format of a calendar date: year, month and day, with hyphens between.
pub open spec fn date_format() -> Seq<char> {
    "%Y-%m-%d"@
}

/// The seconds from the start of 1970 in UTC to a time of day on a day; none where the
/// time of day does not exist.
pub open spec fn utc_seconds(day: int, hour: u32, minute: u32, second: u32) -> Option<int> {
    if hour < 24 && minute < 60 && second < 60 {
        Some((day - UNIX_EPOCH_DAY) * SECONDS_PER_DAY + hour * 3600 + minute * 60 + second)
    } else {
        None
    }
}

/// The seconds from the start of 1970 in UTC to midnight of a day.
pub open spec fn midnight_seconds(day: Option<int>) -> Option<int> {
    match day {
        Some(d) => Some((d - UNIX_EPOCH_DAY) * SECONDS_PER_DAY),
        None => None,
    }
}

/// Whether a machine number, where there is one, is the given number.
pub open spec fn same_number(found: Option<i64>, number: Option<int>) -> bool {
    match found {
        Some(n) => number == Some(n as int),
        None => number.is_none(),
    }
}

/// `chrono::NaiveDate::parse_from_str`, an error given as nothing. What it reads depends
/// on the text and the format alone.
#[verifier::external_body]
fn parse_date(text: &str, format: &str) -> (date: Option<chrono::NaiveDate>)
    ensures
        match date {
            Some(d) => parsed_day(text@, format@) == Some(day_number(d)),
            None => parsed_day(text@, format@).is_none(),
        },
{
    chrono::NaiveDate::parse_from_str(text, format).ok()
}

/// `chrono::DateTime::timestamp` of a date and a time of day in UTC, the time made by
/// `chrono::NaiveTime::from_hms_opt`: the days since January 1, 1970 in seconds, and the
/// seconds since midnight; nothing where the hour, the minute or the second is out of range.
#[verifier::external_body]
fn utc_timestamp(date: chrono::NaiveDate, hour: u32, minute: u32, second: u32) -> (seconds:
    Option<i64>)
    ensures
        same_number(seconds, utc_seconds(day_number(date), hour, minute, second)),
{
    let time = chrono::NaiveTime::from_hms_opt(hour, minute, second)?;
    Some(chrono::NaiveDateTime::new(date, time).and_utc().timestamp())
}

/// Reads a calendar date and gives its midnight in UTC as seconds since the start of 1970;
/// nothing for a text that is no date.
pub fn parse_date_to_timestamp(date_str: &str) -> (timestamp: Option<i64>)
    ensures
        same_number(timestamp, midnight_seconds(parsed_day(date_str@, date_format()))),
{
    match parse_date(date_str, "%Y-%m-%d") {
        Some(date) => utc_timestamp(date, 0, 0, 0),
        None => None,
    }
}

} // verus!
