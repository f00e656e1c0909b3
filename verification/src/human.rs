//! Spans in words, as humantime reads and writes them.
//!
//! The grammar of texts such as `1h 30m` and the wording of their output are
//! humantime's. This module holds the calls into it, and the limit on the
//! texts that are handed to its parser.

use std::time::Duration;
use vstd::prelude::*;
use vstd::string::StringSliceAdditionalSpecFns;

verus! {

/// The most digits that a text may hold between two ASCII letters.
pub const MAX_DIGIT_RUN: usize = 10;

/// The most digits that a text may hold in all.
pub const MAX_DIGITS: usize = 50;

/// `b` is an ASCII digit.
pub open spec fn is_digit(b: u8) -> bool {
    0x30 <= b <= 0x39
}

/// `b` is an ASCII letter.
pub open spec fn is_letter(b: u8) -> bool {
    0x41 <= b <= 0x5a || 0x61 <= b <= 0x7a
}

/// The digits among the first `end` bytes.
pub open spec fn digit_count(bytes: Seq<u8>, end: int) -> nat
    decreases end,
{
    if end <= 0 {
        0
    } else if is_digit(bytes[end - 1]) {
        digit_count(bytes, end - 1) + 1
    } else {
        digit_count(bytes, end - 1)
    }
}

/// The digits among the first `end` bytes that stand after the last ASCII
/// letter among them.
pub open spec fn digit_run(bytes: Seq<u8>, end: int) -> nat
    decreases end,
{
    if end <= 0 {
        0
    } else if is_digit(bytes[end - 1]) {
        digit_run(bytes, end - 1) + 1
    } else if is_letter(bytes[end - 1]) {
        0
    } else {
        digit_run(bytes, end - 1)
    }
}

/// The text is short enough for the parser: no stretch of it between two
/// ASCII letters holds more than `MAX_DIGIT_RUN` digits, and it holds no
/// more than `MAX_DIGITS` digits in all.
pub open spec fn within_parse_limits(bytes: Seq<u8>) -> bool {
    forall|end: int|
        0 <= end <= bytes.len() ==> #[trigger] digit_run(bytes, end) <= MAX_DIGIT_RUN
            && digit_count(bytes, end) <= MAX_DIGITS
}

/// The outcome of a parse, with the diagnostic as text.
pub open spec fn outcome_of(r: Result<(u64, u32), String>) -> Result<(u64, u32), Seq<char>> {
    match r {
        Ok(parts) => Ok(parts),
        Err(diagnostic) => Err(diagnostic@),
    }
}

/// The span that humantime reads from `text`, as whole seconds and the
/// nanoseconds past them; or humantime's diagnostic.
pub uninterp spec fn parsed_duration(text: Seq<char>) -> Result<(u64, u32), Seq<char>>;

/// What humantime writes for the span of `secs` seconds and `nanos`
/// nanoseconds: its parts from years down to nanoseconds, the greatest
/// first and those that are zero left out.
pub uninterp spec fn human_readable(secs: u64, nanos: u32) -> Seq<char>;

/// Tells whether `text` keeps within the limits of `within_parse_limits`.
pub fn check_parse_limits(text: &str) -> (ok: bool)
    ensures
        ok == within_parse_limits(text.spec_bytes()),
{
    let bytes = text.as_bytes();
    let mut index: usize = 0;
    let mut run: usize = 0;
    let mut total: usize = 0;
    while index < bytes.len()
        invariant
            index <= bytes.len(),
            bytes@ == text.spec_bytes(),
            run == digit_run(bytes@, index as int),
            total == digit_count(bytes@, index as int),
            forall|end: int|
                0 <= end <= index ==> #[trigger] digit_run(bytes@, end) <= MAX_DIGIT_RUN
                    && digit_count(bytes@, end) <= MAX_DIGITS,
        decreases bytes.len() - index,
    {
        let b: u8 = bytes[index];
        if 0x30 <= b && b <= 0x39 {
            run = run + 1;
            total = total + 1;
        } else if (0x41 <= b && b <= 0x5a) || (0x61 <= b && b <= 0x7a) {
            run = 0;
        }
        index = index + 1;
        if run > MAX_DIGIT_RUN || total > MAX_DIGITS {
            assert(!(digit_run(bytes@, index as int) <= MAX_DIGIT_RUN && digit_count(
                bytes@,
                index as int,
            ) <= MAX_DIGITS));
            return false;
        }
    }
    true
}

/// Calls `humantime::parse_duration` and takes the seconds and nanoseconds
/// of what it returns, or the text of its error. Trusted: the outcome is a
/// function of `text` alone, and the nanoseconds stay below one second.
///
/// humantime's parser sums the parts of the text in a `std::time::Duration`
/// and aborts where the whole seconds reach `u64::MAX` while the nanoseconds
/// come to exactly one second. Within `within_parse_limits` that cannot
/// happen: a part has at most `MAX_DIGIT_RUN` digits and so is worth less
/// than 10^10 of its unit, a unit is at most 31,557,600 seconds, there are
/// at most `MAX_DIGITS` parts, and 50 * 10^10 * 31,557,600 is less than
/// `u64::MAX`.
#[verifier::external_body]
pub(crate) fn parse_human(text: &str) -> (r: Result<(u64, u32), String>)
    requires
        within_parse_limits(text.spec_bytes()),
    ensures
        outcome_of(r) == parsed_duration(text@),
        r matches Ok((_, nanos)) ==> nanos < 1_000_000_000,
{
    match humantime::parse_duration(text) {
        Ok(span) => Ok((span.as_secs(), span.subsec_nanos())),
        Err(e) => Err(e.to_string()),
    }
}

/// Calls `humantime::format_duration` on the `std::time::Duration` of `secs`
/// seconds and `nanos` nanoseconds, and takes the text that it displays.
/// Trusted: the text is a function of `secs` and `nanos` alone.
#[verifier::external_body]
pub(crate) fn format_human(secs: u64, nanos: u32) -> (r: String)
    requires
        nanos < 1_000_000_000,
    ensures
        r@ == human_readable(secs, nanos),
{
    humantime::format_duration(Duration::new(secs, nanos)).to_string()
}

} // verus!
