//! What this library relies on from the `chrono` crate.
//!
//! Dates and timestamps are held by the library as plain numbers; `chrono`
//! writes them. What it writes for a date is stated in full; what it writes
//! for a timestamp is named.

use vstd::prelude::*;
use crate::api::params::{decimal, digit_chars};

verus! {

/// Whether a year of the proleptic Gregorian calendar is a leap year.
pub open spec fn is_leap_year(year: int) -> bool {
    year % 4 == 0 && (year % 100 != 0 || year % 400 == 0)
}

/// The number of days of a month.
pub open spec fn days_in_month(year: int, month: int) -> int {
    if month == 2 {
        if is_leap_year(year) {
            29
        } else {
            28
        }
    } else if month == 4 || month == 6 || month == 9 || month == 11 {
        30
    } else {
        31
    }
}

/// The first year that `chrono` holds dates of.
pub open spec fn first_year() -> int {
    -262143
}

/// The last year that `chrono` holds dates of.
pub open spec fn last_year() -> int {
    262142
}

/// Whether there is a day of that number in that month of that year, and
/// `chrono` holds its date.
pub open spec fn date_exists(year: int, month: int, day: int) -> bool {
    &&& first_year() <= year <= last_year()
    &&& 1 <= month <= 12
    &&& 1 <= day <= days_in_month(year, month)
}

/// The last two decimal digits of `n`.
pub open spec fn two_digits(n: nat) -> Seq<char> {
    seq![digit_chars()[(n / 10 % 10) as int], digit_chars()[(n % 10) as int]]
}

/// A number in decimal, with zeros before it where it has fewer than four
/// digits.
pub open spec fn four_digits_or_more(n: nat) -> Seq<char> {
    if n < 10 {
        seq!['0', '0', '0'] + decimal(n)
    } else if n < 100 {
        seq!['0', '0'] + decimal(n)
    } else if n < 1000 {
        seq!['0'] + decimal(n)
    } else {
        decimal(n)
    }
}

/// A year as `chrono` writes it: in four digits from 0 to 9999, and beyond
/// them with its sign and in four digits or more.
pub open spec fn year_text(year: int) -> Seq<char> {
    if year < 0 {
        seq!['-'] + four_digits_or_more((-year) as nat)
    } else if year > 9999 {
        seq!['+'] + four_digits_or_more(year as nat)
    } else {
        four_digits_or_more(year as nat)
    }
}

/// The date of the three numbers as `YYYY-MM-DD`, where there is one: the
/// year, the month in two digits and the day in two, hyphens between them.
pub open spec fn date_text(year: i32, month: u32, day: u32) -> Option<Seq<char>> {
    if date_exists(year as int, month as int, day as int) {
        Some(
            year_text(year as int) + seq!['-'] + two_digits(month as nat) + seq!['-'] + two_digits(
                day as nat,
            ),
        )
    } else {
        None
    }
}

/// The text `DateTime::<Utc>::to_rfc3339_opts(SecondsFormat::Secs, true)`
/// writes for the instant that `DateTime::from_timestamp` builds from the two
/// numbers, or `None` where it builds none.
pub uninterp spec fn timestamp_text(secs: i64, nanos: u32) -> Option<Seq<char>>;

/// `NaiveDate::from_ymd_opt`, then `NaiveDate::format` with `%Y-%m-%d`.
/// There is a date exactly where the day exists in the proleptic Gregorian
/// calendar and the year is one that `chrono` holds. Its text is the year,
/// the month in two digits and the day in two, with hyphens between them;
/// the year stands in four digits from 0 to 9999, and beyond them with its
/// sign and in four digits or more.
#[verifier::external_body]
pub(crate) fn date_format(year: i32, month: u32, day: u32) -> (r: Option<String>)
    ensures
        match r {
            Some(s) => date_text(year, month, day) == Some(s@),
            None => date_text(year, month, day) is None,
        },
{
    chrono::NaiveDate::from_ymd_opt(year, month, day).map(|d| d.format("%Y-%m-%d").to_string())
}

/// `DateTime::from_timestamp`, then `DateTime::to_rfc3339_opts` with second
/// precision and the `Z` designator: both depend on the two numbers alone.
#[verifier::external_body]
pub(crate) fn timestamp_format(secs: i64, nanos: u32) -> (r: Option<String>)
    ensures
        match r {
            Some(s) => timestamp_text(secs, nanos) == Some(s@),
            None => timestamp_text(secs, nanos) is None,
        },
{
    chrono::DateTime::from_timestamp(secs, nanos)
        .map(|t| t.to_rfc3339_opts(chrono::SecondsFormat::Secs, true))
}

} // verus!
