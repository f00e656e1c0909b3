//! The civil calendar, as chrono computes it.
//!
//! Calendar arithmetic, strftime-style rendering and parsing are chrono's
//! work. This module holds the calls into it. Each call is trusted: its
//! contract gives the result a name and claims that chrono returns the same
//! result whenever it is given the same arguments.

use crate::human::is_digit;
use chrono::{DateTime, Datelike, FixedOffset, NaiveDate, Timelike};
use vstd::prelude::*;
use vstd::string::StringSliceAdditionalSpecFns;

verus! {

/// A point in time resolved in the civil calendar, in UTC.
#[derive(Clone, Copy, Debug, PartialEq, Eq, Structural)]
pub struct UtcDateTime {
    pub year: i32,
    pub month: u32,
    pub day: u32,
    pub hour: u32,
    pub minute: u32,
    pub second: u32,
    pub nanosecond: u32,
}

/// The text of an optional string.
pub open spec fn text_of(s: Option<String>) -> Option<Seq<char>> {
    match s {
        Some(text) => Some(text@),
        None => None,
    }
}

/// The outcome of a parse, with the diagnostic as text.
pub open spec fn outcome_of(r: Result<(i64, u32), String>) -> Result<(i64, u32), Seq<char>> {
    match r {
        Ok(parts) => Ok(parts),
        Err(diagnostic) => Err(diagnostic@),
    }
}

/// The calendar date and time of day, in UTC, of the instant `secs` seconds
/// and `nanos` nanoseconds after the epoch; `None` where chrono's calendar
/// does not reach that far.
pub uninterp spec fn utc_calendar(secs: i64, nanos: u32) -> Option<UtcDateTime>;

/// What chrono writes for `dt` in UTC under the strftime-style `format`;
/// `None` where it rejects the format or the fields of `dt`.
pub uninterp spec fn utc_rendering(dt: UtcDateTime, format: Seq<char>) -> Option<Seq<char>>;

/// What chrono writes for `dt`, moved `offset` seconds east of UTC, under the
/// strftime-style `format`; `None` where it rejects the format, the offset
/// or the fields of `dt`.
pub uninterp spec fn offset_rendering(dt: UtcDateTime, offset: i32, format: Seq<char>) -> Option<
    Seq<char>,
>;

/// What chrono writes by default for `dt`, moved `offset` seconds east of
/// UTC; `None` where it rejects the offset or the fields of `dt`.
pub uninterp spec fn offset_display(dt: UtcDateTime, offset: i32) -> Option<Seq<char>>;

/// The seconds east of UTC that chrono reads from `text`; `None` where it
/// reads no fixed offset.
pub uninterp spec fn parsed_offset(text: Seq<char>) -> Option<i32>;

/// The instant that chrono reads from `text` under the strftime-style
/// `format`, as seconds since the epoch and nanoseconds past that second;
/// or chrono's diagnostic.
pub uninterp spec fn parsed_with_format(text: Seq<char>, format: Seq<char>) -> Result<
    (i64, u32),
    Seq<char>,
>;

/// The instant that chrono reads from `text` as RFC 3339, as seconds since
/// the epoch and nanoseconds past that second.
pub uninterp spec fn parsed_rfc3339(text: Seq<char>) -> Option<(i64, u32)>;

/// Calls `chrono::DateTime::from_timestamp` and copies the calendar fields
/// of what it returns. Trusted: the result is a function of `secs` and
/// `nanos` alone.
#[verifier::external_body]
pub(crate) fn calendar_from_timestamp(secs: i64, nanos: u32) -> (r: Option<UtcDateTime>)
    ensures
        r == utc_calendar(secs, nanos),
{
    let dt = DateTime::from_timestamp(secs, nanos)?;
    Some(
        UtcDateTime {
            year: dt.year(),
            month: dt.month(),
            day: dt.day(),
            hour: dt.hour(),
            minute: dt.minute(),
            second: dt.second(),
            nanosecond: dt.nanosecond(),
        },
    )
}

/// Builds chrono's `DateTime<Utc>` from the fields of `dt` and writes it
/// with `DateTime::format`. Trusted: the text is a function of the fields
/// and of `format` alone.
#[verifier::external_body]
pub(crate) fn render_utc(dt: &UtcDateTime, format: &str) -> (r: Option<String>)
    ensures
        text_of(r) == utc_rendering(*dt, format@),
{
    let date = NaiveDate::from_ymd_opt(dt.year, dt.month, dt.day)?;
    let naive = date.and_hms_nano_opt(dt.hour, dt.minute, dt.second, dt.nanosecond)?;
    let mut text = String::new();
    naive.and_utc().format(format).write_to(&mut text).ok()?;
    Some(text)
}

/// Builds chrono's `DateTime<Utc>` from the fields of `dt`, moves it with
/// `DateTime::with_timezone` to the fixed offset of `offset` seconds and
/// writes it with `DateTime::format`. Trusted: the text is a function of the
/// fields, of `offset` and of `format` alone.
#[verifier::external_body]
pub(crate) fn render_at_offset(dt: &UtcDateTime, offset: i32, format: &str) -> (r: Option<String>)
    ensures
        text_of(r) == offset_rendering(*dt, offset, format@),
{
    let date = NaiveDate::from_ymd_opt(dt.year, dt.month, dt.day)?;
    let naive = date.and_hms_nano_opt(dt.hour, dt.minute, dt.second, dt.nanosecond)?;
    let zone = FixedOffset::east_opt(offset)?;
    let mut text = String::new();
    naive.and_utc().with_timezone(&zone).format(format).write_to(&mut text).ok()?;
    Some(text)
}

/// Builds chrono's `DateTime<Utc>` from the fields of `dt`, moves it with
/// `DateTime::with_timezone` to the fixed offset of `offset` seconds and
/// writes it as its `Display` does. Trusted: the text is a function of the
/// fields and of `offset` alone.
#[verifier::external_body]
pub(crate) fn display_at_offset(dt: &UtcDateTime, offset: i32) -> (r: Option<String>)
    ensures
        text_of(r) == offset_display(*dt, offset),
{
    let date = NaiveDate::from_ymd_opt(dt.year, dt.month, dt.day)?;
    let naive = date.and_hms_nano_opt(dt.hour, dt.minute, dt.second, dt.nanosecond)?;
    let zone = FixedOffset::east_opt(offset)?;
    Some(naive.and_utc().with_timezone(&zone).to_string())
}

/// Calls chrono's `FromStr` for `FixedOffset`. Trusted: the offset is a
/// function of `timezone` alone.
#[verifier::external_body]
pub(crate) fn parse_offset(timezone: &str) -> (r: Option<i32>)
    ensures
        r == parsed_offset(timezone@),
{
    match timezone.parse::<FixedOffset>() {
        Ok(zone) => Some(zone.local_minus_utc()),
        Err(_) => None,
    }
}

/// The most ASCII digits in a row that a text may hold where its format
/// names the ISO week year.
pub const MAX_YEAR_DIGITS: usize = 9;

/// The ASCII digits that stand in a row just before the byte at `end`.
pub open spec fn digits_before(bytes: Seq<u8>, end: int) -> nat
    decreases end,
{
    if end <= 0 {
        0
    } else if is_digit(bytes[end - 1]) {
        digits_before(bytes, end - 1) + 1
    } else {
        0
    }
}

/// The text holds more than `MAX_YEAR_DIGITS` ASCII digits in a row.
pub open spec fn has_long_number(text: Seq<u8>) -> bool {
    exists|end: int|
        0 <= end <= text.len() && #[trigger] digits_before(text, end) > MAX_YEAR_DIGITS
}

/// `b` is one of the padding flags `-`, `0` and `_` of a format specifier.
pub open spec fn is_pad_flag(b: u8) -> bool {
    b == 0x2d || b == 0x30 || b == 0x5f
}

/// The byte at `at` is a `G` that stands behind a `%`, with or without a
/// padding flag between the two: the specifier of the ISO week year.
pub open spec fn names_iso_year_at(format: Seq<u8>, at: int) -> bool {
    &&& 1 <= at < format.len()
    &&& format[at] == 0x47
    &&& (format[at - 1] == 0x25 || (at >= 2 && is_pad_flag(format[at - 1]) && format[at - 2]
        == 0x25))
}

/// The format names the ISO week year somewhere.
pub open spec fn names_iso_year(format: Seq<u8>) -> bool {
    exists|at: int| names_iso_year_at(format, at)
}

/// The text and the format are fit for the parser: where the format names
/// the ISO week year, the text holds no number of more than
/// `MAX_YEAR_DIGITS` digits.
pub open spec fn within_format_limits(text: Seq<u8>, format: Seq<u8>) -> bool {
    !(names_iso_year(format) && has_long_number(text))
}

/// Tells whether `format` names the ISO week year.
pub fn format_names_iso_year(format: &str) -> (found: bool)
    ensures
        found == names_iso_year(format.spec_bytes()),
{
    let bytes = format.as_bytes();
    let mut at: usize = 1;
    while at < bytes.len()
        invariant
            1 <= at,
            bytes@ == format.spec_bytes(),
            forall|k: int| k < at ==> !names_iso_year_at(bytes@, k),
        decreases bytes.len() - at,
    {
        if bytes[at] == 0x47 {
            let flag: u8 = bytes[at - 1];
            if flag == 0x25 {
                assert(names_iso_year_at(bytes@, at as int));
                return true;
            }
            if at >= 2 && (flag == 0x2d || flag == 0x30 || flag == 0x5f) && bytes[at - 2] == 0x25 {
                assert(names_iso_year_at(bytes@, at as int));
                return true;
            }
        }
        at = at + 1;
    }
    false
}

/// Tells whether `text` holds more than `MAX_YEAR_DIGITS` ASCII digits in a
/// row.
pub fn text_has_long_number(text: &str) -> (found: bool)
    ensures
        found == has_long_number(text.spec_bytes()),
{
    let bytes = text.as_bytes();
    let mut index: usize = 0;
    let mut run: usize = 0;
    while index < bytes.len()
        invariant
            index <= bytes.len(),
            bytes@ == text.spec_bytes(),
            run == digits_before(bytes@, index as int),
            forall|end: int|
                0 <= end <= index ==> #[trigger] digits_before(bytes@, end) <= MAX_YEAR_DIGITS,
        decreases bytes.len() - index,
    {
        let b: u8 = bytes[index];
        if 0x30 <= b && b <= 0x39 {
            run = run + 1;
        } else {
            run = 0;
        }
        index = index + 1;
        if run > MAX_YEAR_DIGITS {
            assert(digits_before(bytes@, index as int) > MAX_YEAR_DIGITS);
            return true;
        }
    }
    false
}

/// Tells whether `text` and `format` keep within `within_format_limits`.
pub fn check_format_limits(text: &str, format: &str) -> (ok: bool)
    ensures
        ok == within_format_limits(text.spec_bytes(), format.spec_bytes()),
{
    !(format_names_iso_year(format) && text_has_long_number(text))
}

/// Calls `chrono::DateTime::parse_from_str` and takes the timestamp of what
/// it returns, or the text of its error. Trusted: the outcome is a function
/// of `text` and `format` alone.
///
/// chrono keeps an ISO week year of any size that fits `i32` and, to find
/// the date of a week at the turn of the year, adds one to it or takes one
/// from it before it tests the range, which aborts at either end of `i32`.
/// Within `within_format_limits` that cannot happen: only the specifier `G`
/// reads such a year, as one number of the text, and a number of at most
/// `MAX_YEAR_DIGITS` digits is less than 10^9 in size.
#[verifier::external_body]
pub(crate) fn parse_with_format(text: &str, format: &str) -> (r: Result<(i64, u32), String>)
    requires
        within_format_limits(text.spec_bytes(), format.spec_bytes()),
    ensures
        outcome_of(r) == parsed_with_format(text@, format@),
{
    match DateTime::parse_from_str(text, format) {
        Ok(dt) => Ok((dt.timestamp(), dt.timestamp_subsec_nanos())),
        Err(e) => Err(e.to_string()),
    }
}

/// Calls `chrono::DateTime::parse_from_rfc3339` and takes the timestamp of
/// what it returns. Trusted: the outcome is a function of `text` alone.
#[verifier::external_body]
pub(crate) fn parse_rfc3339(text: &str) -> (r: Option<(i64, u32)>)
    ensures
        r == parsed_rfc3339(text@),
{
    match DateTime::parse_from_rfc3339(text) {
        Ok(dt) => Some((dt.timestamp(), dt.timestamp_subsec_nanos())),
        Err(_) => None,
    }
}

} // verus!
