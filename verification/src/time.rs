//! Points in time on the wall clock, anchored at the epoch
//! 1970-01-01T00:00:00Z.

use crate::calendar::{
    calendar_from_timestamp, check_format_limits, display_at_offset, names_iso_year,
    names_iso_year_at, offset_display, offset_rendering, parse_offset, parse_rfc3339,
    parse_with_format, parsed_offset, parsed_rfc3339, parsed_with_format, render_at_offset,
    render_utc, utc_calendar, utc_rendering, within_format_limits, UtcDateTime,
};
use crate::clock::read_system_clock;
use crate::duration::CustomDuration;
use crate::error::TimeError;
use vstd::prelude::*;
use vstd::string::{is_ascii, is_ascii_spec_bytes, StringSliceAdditionalSpecFns};

verus! {

/// How many formats `common_formats` lists.
pub const COMMON_FORMAT_COUNT: usize = 4;

/// The formats that a text without a stated format is tried against, in
/// this order. RFC 3339 is tried after them.
pub open spec fn common_formats() -> Seq<Seq<char>> {
    seq![
        "%Y-%m-%d %H:%M:%S%z"@,
        "%Y-%m-%dT%H:%M:%S%z"@,
        "%Y-%m-%d %H:%M:%S.%f%z"@,
        "%Y-%m-%dT%H:%M:%S.%f%z"@,
    ]
}

/// A format of ASCII characters without a `G` does not name the ISO week
/// year.
proof fn lemma_without_g(format: &str)
    requires
        forall|i: int|
            0 <= i < format@.len() ==> '\0' <= #[trigger] format@[i] <= '\u{7f}' && format@[i]
                != 'G',
    ensures
        !names_iso_year(format.spec_bytes()),
{
    assert(is_ascii(format));
    is_ascii_spec_bytes(format);
    let bytes = format.spec_bytes();
    assert forall|at: int| !names_iso_year_at(bytes, at) by {
        if 1 <= at < bytes.len() {
            assert(bytes[at] == format@[at] as u8);
        }
    }
}

/// The format at `index` of `common_formats`. None of them names the ISO
/// week year.
pub fn common_format(index: usize) -> (format: &'static str)
    requires
        index < COMMON_FORMAT_COUNT,
    ensures
        format@ == common_formats()[index as int],
        !names_iso_year(format.spec_bytes()),
{
    if index == 0 {
        proof {
            reveal_strlit("%Y-%m-%d %H:%M:%S%z");
            lemma_without_g("%Y-%m-%d %H:%M:%S%z");
        }
        "%Y-%m-%d %H:%M:%S%z"
    } else if index == 1 {
        proof {
            reveal_strlit("%Y-%m-%dT%H:%M:%S%z");
            lemma_without_g("%Y-%m-%dT%H:%M:%S%z");
        }
        "%Y-%m-%dT%H:%M:%S%z"
    } else if index == 2 {
        proof {
            reveal_strlit("%Y-%m-%d %H:%M:%S.%f%z");
            lemma_without_g("%Y-%m-%d %H:%M:%S.%f%z");
        }
        "%Y-%m-%d %H:%M:%S.%f%z"
    } else {
        proof {
            reveal_strlit("%Y-%m-%dT%H:%M:%S.%f%z");
            lemma_without_g("%Y-%m-%dT%H:%M:%S.%f%z");
        }
        "%Y-%m-%dT%H:%M:%S.%f%z"
    }
}

/// What the first format, from index `from` on, that reads `text` makes of
/// it.
pub open spec fn first_with_format(text: Seq<char>, from: int) -> Option<(i64, u32)>
    decreases COMMON_FORMAT_COUNT - from,
{
    if 0 <= from < COMMON_FORMAT_COUNT {
        match parsed_with_format(text, common_formats()[from]) {
            Ok(parts) => Some(parts),
            Err(_) => first_with_format(text, from + 1),
        }
    } else {
        None
    }
}

/// What the common formats make of `text`: the reading of the first of
/// `common_formats` that fits, else the reading as RFC 3339.
pub open spec fn common_parse(text: Seq<char>) -> Option<(i64, u32)> {
    match first_with_format(text, 0) {
        Some(parts) => Some(parts),
        None => parsed_rfc3339(text),
    }
}

/// The payload of the error for a text that does not fit a format.
pub open spec fn parse_failure_text(
    text: Seq<char>,
    format: Seq<char>,
    diagnostic: Seq<char>,
) -> Seq<char> {
    "Failed to parse '"@ + text + "' with format '"@ + format + "': "@ + diagnostic
}

/// The payload of the error for a format that cannot be rendered.
pub open spec fn render_failure_text(format: Seq<char>) -> Seq<char> {
    "Failed to render with format '"@ + format + "'"@
}

/// The payload of the error for a text that fits none of the common formats.
pub open spec fn unreadable_text(text: Seq<char>) -> Seq<char> {
    "Invalid time string: "@ + text
}

/// `r` reports `rendering`: the text where there is one, else
/// `InvalidTimeFormat` naming `format`.
pub open spec fn reports_rendering(
    r: Result<String, TimeError>,
    rendering: Option<Seq<char>>,
    format: Seq<char>,
) -> bool {
    match rendering {
        Some(text) => r matches Ok(s) && s@ == text,
        None => {
            &&& r matches Err(TimeError::InvalidTimeFormat(msg))
            &&& msg@ == render_failure_text(format)
        },
    }
}

/// `r` is the instant `secs` seconds and `nanos` nanoseconds after the
/// epoch, with no calendar reading remembered.
pub open spec fn is_instant(r: Result<Time, TimeError>, secs: i64, nanos: u32) -> bool {
    &&& r matches Ok(t)
    &&& t == Time::at(secs * 1_000_000_000 + nanos)
    &&& t@ == secs * 1_000_000_000 + nanos
    &&& t.cached() is None
}

/// `r` is `InvalidTimezoneFormat` holding `timezone`.
pub open spec fn rejects_timezone(r: Result<String, TimeError>, timezone: Seq<char>) -> bool {
    r matches Err(TimeError::InvalidTimezoneFormat(msg)) && msg@ == timezone
}

/// A point in time: a signed count of nanoseconds since the epoch, which is
/// its view. It may remember its calendar reading.
#[derive(Debug, Clone, Copy)]
pub struct Time {
    since_epoch: i128,
    cached_utc_datetime: Option<UtcDateTime>,
}

impl View for Time {
    type V = int;

    closed spec fn view(&self) -> int {
        self.since_epoch as int
    }
}

impl Time {
    /// The calendar reading that this value remembers.
    pub closed spec fn cached(&self) -> Option<UtcDateTime> {
        self.cached_utc_datetime
    }

    /// The calendar reading of this instant: none before the epoch, none
    /// where the seconds since the epoch exceed `i64::MAX`, and else what
    /// the calendar makes of the seconds and the nanoseconds past them.
    pub open spec fn utc_datetime(&self) -> Option<UtcDateTime> {
        if 0 <= self@ && self@ / 1_000_000_000 <= i64::MAX {
            utc_calendar((self@ / 1_000_000_000) as i64, (self@ % 1_000_000_000) as u32)
        } else {
            None
        }
    }

    /// A remembered calendar reading is the reading of this very instant.
    #[verifier::type_invariant]
    pub closed spec fn wf(self) -> bool {
        self.cached_utc_datetime matches Some(dt) ==> self.utc_datetime() == Some(dt)
    }

    /// The instant `n` nanoseconds after the epoch, with nothing remembered.
    pub closed spec fn at(n: int) -> Time {
        Time { since_epoch: n as i128, cached_utc_datetime: None }
    }

    /// The instant `secs` seconds after the epoch.
    pub open spec fn spec_from_epoch_seconds(secs: u64) -> Time {
        Self::at(secs * 1_000_000_000)
    }

    /// This instant moved forward by `span`.
    pub open spec fn spec_add_duration(self, span: CustomDuration) -> Time {
        Self::at(self@ + span@)
    }

    /// This instant moved backward by `span`.
    pub open spec fn spec_sub_duration(self, span: CustomDuration) -> Time {
        Self::at(self@ - span@)
    }

    /// The whole seconds from the epoch to this instant, where it does not
    /// lie before the epoch and they fit in `u64`.
    pub open spec fn spec_timestamp(self) -> Result<u64, TimeError> {
        if 0 <= self@ && self@ / 1_000_000_000 <= u64::MAX {
            Ok((self@ / 1_000_000_000) as u64)
        } else {
            Err(TimeError::InvalidTime)
        }
    }

    /// `at(n)` is valid, remembers nothing, and has the view `n`, for every
    /// `n` that fits in `i128`.
    pub proof fn lemma_at(n: int)
        requires
            i128::MIN <= n <= i128::MAX,
        ensures
            Self::at(n).wf(),
            Self::at(n)@ == n,
            Self::at(n).cached() is None,
    {
    }

    /// The instant `secs` whole seconds after the epoch.
    pub fn from_epoch_seconds(secs: u64) -> (r: Time)
        ensures
            r == Self::spec_from_epoch_seconds(secs),
            r@ == secs * 1_000_000_000,
            r.cached() is None,
    {
        Time { since_epoch: (secs as i128) * 1_000_000_000, cached_utc_datetime: None }
    }

    /// The instant `nanos` nanoseconds after the epoch, or before it where
    /// `nanos` is negative.
    pub fn from_epoch_nanos(nanos: i128) -> (r: Time)
        ensures
            r == Self::at(nanos as int),
            r@ == nanos,
            r.cached() is None,
    {
        Time { since_epoch: nanos, cached_utc_datetime: None }
    }

    /// The nanoseconds from the epoch to this instant, negative where it
    /// lies before the epoch.
    pub fn epoch_nanos(&self) -> (r: i128)
        ensures
            r == self@,
    {
        self.since_epoch
    }

    /// The instant of a reading of the clock: `Ok` holds the seconds and
    /// nanoseconds by which it lies after the epoch, `Err` those by which it
    /// lies before it.
    pub fn from_clock_reading(reading: Result<(u64, u32), (u64, u32)>) -> (r: Time)
        ensures
            match reading {
                Ok((secs, nanos)) => r@ == secs * 1_000_000_000 + nanos,
                Err((secs, nanos)) => r@ == -(secs * 1_000_000_000 + nanos),
            },
            r.cached() is None,
    {
        match reading {
            Ok((secs, nanos)) => Time {
                since_epoch: (secs as i128) * 1_000_000_000 + (nanos as i128),
                cached_utc_datetime: None,
            },
            Err((secs, nanos)) => Time {
                since_epoch: -((secs as i128) * 1_000_000_000 + (nanos as i128)),
                cached_utc_datetime: None,
            },
        }
    }

    /// The instant that the system clock shows. Nothing is known of it but
    /// that it remembers no calendar reading yet.
    pub fn now() -> (r: Time)
        ensures
            r.cached() is None,
    {
        Self::from_clock_reading(read_system_clock())
    }

    /// The instant `secs` seconds and `nanos` nanoseconds after the epoch.
    /// `secs` may be negative, and `nanos` may exceed a second.
    pub fn from_timestamp_parts(secs: i64, nanos: u32) -> (r: Time)
        ensures
            r == Self::at(secs * 1_000_000_000 + nanos),
            r@ == secs * 1_000_000_000 + nanos,
            r.cached() is None,
    {
        Time {
            since_epoch: (secs as i128) * 1_000_000_000 + (nanos as i128),
            cached_utc_datetime: None,
        }
    }

    /// The whole seconds from the epoch to this instant. `InvalidTime` where
    /// the instant lies before the epoch or the seconds do not fit in `u64`.
    pub fn timestamp(&self) -> (r: Result<u64, TimeError>)
        ensures
            r == self.spec_timestamp(),
    {
        if self.since_epoch < 0 {
            return Err(TimeError::InvalidTime);
        }
        let secs: i128 = self.since_epoch / 1_000_000_000;
        if secs > u64::MAX as i128 {
            Err(TimeError::InvalidTime)
        } else {
            Ok(secs as u64)
        }
    }

    /// This instant moved forward by `span`. The result has to fit: at most
    /// `i128::MAX` nanoseconds after the epoch.
    pub fn add_duration(&self, span: &CustomDuration) -> (r: Time)
        requires
            self@ + span@ <= i128::MAX,
        ensures
            r == self.spec_add_duration(*span),
            r@ == self@ + span@,
            r.cached() is None,
    {
        let n: u128 = span.as_nanos();
        Time { since_epoch: self.since_epoch + (n as i128), cached_utc_datetime: None }
    }

    /// This instant moved backward by `span`, which may take it before the
    /// epoch. The result has to fit: at most `i128::MIN` nanoseconds before
    /// the epoch.
    pub fn sub_duration(&self, span: &CustomDuration) -> (r: Time)
        requires
            self@ - span@ >= i128::MIN,
        ensures
            r == self.spec_sub_duration(*span),
            r@ == self@ - span@,
            r.cached() is None,
    {
        let n: u128 = span.as_nanos();
        Time { since_epoch: self.since_epoch - (n as i128), cached_utc_datetime: None }
    }

    /// The calendar reading of this instant, which is computed on the first
    /// call and remembered for the later ones. `InvalidTime` where the
    /// instant has no reading.
    pub fn get_utc_datetime(&mut self) -> (r: Result<UtcDateTime, TimeError>)
        ensures
            final(self)@ == old(self)@,
            match old(self).utc_datetime() {
                Some(dt) => r matches Ok(found) && found == dt && final(self).cached() == Some(dt),
                None => r matches Err(TimeError::InvalidTime) && final(self).cached() is None,
            },
    {
        proof {
            use_type_invariant(&*self);
        }
        if let Some(dt) = self.cached_utc_datetime {
            return Ok(dt);
        }
        if self.since_epoch < 0 {
            return Err(TimeError::InvalidTime);
        }
        let secs: i128 = self.since_epoch / 1_000_000_000;
        let nanos: u32 = (self.since_epoch % 1_000_000_000) as u32;
        if secs > i64::MAX as i128 {
            return Err(TimeError::InvalidTime);
        }
        match calendar_from_timestamp(secs as i64, nanos) {
            Some(dt) => {
                self.cached_utc_datetime = Some(dt);
                Ok(dt)
            },
            None => Err(TimeError::InvalidTime),
        }
    }

    /// Turns what the calendar wrote into this library's result: the text,
    /// or `InvalidTimeFormat` naming `format` where it wrote none.
    pub fn rendered(rendering: Option<String>, format: &str) -> (r: Result<String, TimeError>)
        ensures
            reports_rendering(r, crate::calendar::text_of(rendering), format@),
    {
        match rendering {
            Some(text) => Ok(text),
            None => {
                let msg = String::from_str("Failed to render with format '")
                    .concat(format)
                    .concat("'");
                Err(TimeError::InvalidTimeFormat(msg))
            },
        }
    }

    /// Writes this instant in UTC under the strftime-style `format`.
    /// `InvalidTime` where the instant has no calendar reading;
    /// `InvalidTimeFormat` where the calendar rejects the format.
    pub fn format(&mut self, format: &str) -> (r: Result<String, TimeError>)
        ensures
            final(self)@ == old(self)@,
            match old(self).utc_datetime() {
                Some(dt) => {
                    &&& final(self).cached() == Some(dt)
                    &&& reports_rendering(r, utc_rendering(dt, format@), format@)
                },
                None => r matches Err(TimeError::InvalidTime) && final(self).cached() is None,
            },
    {
        match self.get_utc_datetime() {
            Ok(dt) => Self::rendered(render_utc(&dt, format), format),
            Err(e) => Err(e),
        }
    }

    /// Turns what the offset parser read into this library's result: the
    /// offset in seconds east of UTC, or `InvalidTimezoneFormat` holding
    /// `timezone` where it read none.
    pub fn offset_from(parsed: Option<i32>, timezone: &str) -> (r: Result<i32, TimeError>)
        ensures
            match parsed {
                Some(offset) => r == Ok::<i32, TimeError>(offset),
                None => {
                    &&& r matches Err(TimeError::InvalidTimezoneFormat(msg))
                    &&& msg@ == timezone@
                },
            },
    {
        match parsed {
            Some(offset) => Ok(offset),
            None => Err(TimeError::InvalidTimezoneFormat(String::from_str(timezone))),
        }
    }

    /// Turns what the calendar wrote by default into this library's result:
    /// the text, or `InvalidTime` where it wrote none.
    pub fn displayed(display: Option<String>) -> (r: Result<String, TimeError>)
        ensures
            match display {
                Some(text) => r == Ok::<String, TimeError>(text),
                None => r matches Err(TimeError::InvalidTime),
            },
    {
        match display {
            Some(text) => Ok(text),
            None => Err(TimeError::InvalidTime),
        }
    }

    /// Writes this instant under the strftime-style `format`, as seen at the
    /// fixed UTC offset `timezone` (such as `+05:30`). `InvalidTime` where
    /// the instant has no calendar reading; else `InvalidTimezoneFormat`
    /// where `timezone` is no fixed offset; else `InvalidTimeFormat` where
    /// the calendar rejects the format.
    pub fn format_with_timezone(
        &mut self,
        format: &str,
        timezone: &str,
    ) -> (r: Result<String, TimeError>)
        ensures
            final(self)@ == old(self)@,
            match old(self).utc_datetime() {
                Some(dt) => {
                    &&& final(self).cached() == Some(dt)
                    &&& match parsed_offset(timezone@) {
                        Some(offset) => reports_rendering(
                            r,
                            offset_rendering(dt, offset, format@),
                            format@,
                        ),
                        None => rejects_timezone(r, timezone@),
                    }
                },
                None => r matches Err(TimeError::InvalidTime) && final(self).cached() is None,
            },
    {
        let dt = match self.get_utc_datetime() {
            Ok(dt) => dt,
            Err(e) => {
                return Err(e);
            },
        };
        match Self::offset_from(parse_offset(timezone), timezone) {
            Ok(offset) => Self::rendered(render_at_offset(&dt, offset, format), format),
            Err(e) => Err(e),
        }
    }

    /// Writes this instant as seen at the fixed UTC offset `timezone`, in
    /// the calendar's default form. `InvalidTime` where the instant has no
    /// calendar reading; else `InvalidTimezoneFormat` where `timezone` is no
    /// fixed offset; `InvalidTime` also where the calendar writes nothing.
    pub fn to_timezone(&mut self, timezone: &str) -> (r: Result<String, TimeError>)
        ensures
            final(self)@ == old(self)@,
            match old(self).utc_datetime() {
                Some(dt) => {
                    &&& final(self).cached() == Some(dt)
                    &&& match parsed_offset(timezone@) {
                        Some(offset) => match offset_display(dt, offset) {
                            Some(text) => r matches Ok(s) && s@ == text,
                            None => r matches Err(TimeError::InvalidTime),
                        },
                        None => rejects_timezone(r, timezone@),
                    }
                },
                None => r matches Err(TimeError::InvalidTime) && final(self).cached() is None,
            },
    {
        let dt = match self.get_utc_datetime() {
            Ok(dt) => dt,
            Err(e) => {
                return Err(e);
            },
        };
        match Self::offset_from(parse_offset(timezone), timezone) {
            Ok(offset) => Self::displayed(display_at_offset(&dt, offset)),
            Err(e) => Err(e),
        }
    }

    /// Writes this instant in UTC as `%Y-%m-%d %H:%M:%S`, and remembers
    /// nothing. `InvalidTime` where the instant has no calendar reading.
    pub fn display(&self) -> (r: Result<String, TimeError>)
        ensures
            match self.utc_datetime() {
                Some(dt) => reports_rendering(
                    r,
                    utc_rendering(dt, "%Y-%m-%d %H:%M:%S"@),
                    "%Y-%m-%d %H:%M:%S"@,
                ),
                None => r matches Err(TimeError::InvalidTime),
            },
    {
        let mut probe = *self;
        probe.format("%Y-%m-%d %H:%M:%S")
    }

    /// Turns the outcome of reading `text` under `format` into this
    /// library's result: the instant, or `InvalidTimeFormat` with the text,
    /// the format and the diagnostic.
    pub fn from_parse_outcome(
        text: &str,
        format: &str,
        outcome: Result<(i64, u32), String>,
    ) -> (r: Result<Time, TimeError>)
        ensures
            match outcome {
                Ok((secs, nanos)) => is_instant(r, secs, nanos),
                Err(diagnostic) => {
                    &&& r matches Err(TimeError::InvalidTimeFormat(msg))
                    &&& msg@ == parse_failure_text(text@, format@, diagnostic@)
                },
            },
    {
        match outcome {
            Ok((secs, nanos)) => Ok(Self::from_timestamp_parts(secs, nanos)),
            Err(diagnostic) => {
                let msg = String::from_str("Failed to parse '")
                    .concat(text)
                    .concat("' with format '")
                    .concat(format)
                    .concat("': ")
                    .concat(diagnostic.as_str());
                Err(TimeError::InvalidTimeFormat(msg))
            },
        }
    }

    /// Reads `time_str` under the strftime-style `format`, which has to
    /// state the UTC offset (`%z`). `InvalidTimeFormat` where the text and
    /// the format do not fit, and also where they exceed
    /// `within_format_limits`.
    pub fn from_str(time_str: &str, format: &str) -> (r: Result<Time, TimeError>)
        ensures
            if within_format_limits(time_str.spec_bytes(), format.spec_bytes()) {
                match parsed_with_format(time_str@, format@) {
                    Ok((secs, nanos)) => is_instant(r, secs, nanos),
                    Err(diagnostic) => {
                        &&& r matches Err(TimeError::InvalidTimeFormat(msg))
                        &&& msg@ == parse_failure_text(time_str@, format@, diagnostic)
                    },
                }
            } else {
                &&& r matches Err(TimeError::InvalidTimeFormat(msg))
                &&& msg@ == parse_failure_text(time_str@, format@, "too many digits"@)
            },
    {
        if check_format_limits(time_str, format) {
            Self::from_parse_outcome(time_str, format, parse_with_format(time_str, format))
        } else {
            Self::from_parse_outcome(time_str, format, Err(String::from_str("too many digits")))
        }
    }

    /// Turns what the common formats made of `text` into this library's
    /// result: the instant, or `ParseError` holding the text.
    pub fn from_common_outcome(
        text: &str,
        outcome: Option<(i64, u32)>,
    ) -> (r: Result<Time, TimeError>)
        ensures
            match outcome {
                Some((secs, nanos)) => is_instant(r, secs, nanos),
                None => {
                    &&& r matches Err(TimeError::ParseError(msg))
                    &&& msg@ == unreadable_text(text@)
                },
            },
    {
        match outcome {
            Some((secs, nanos)) => Ok(Self::from_timestamp_parts(secs, nanos)),
            None => {
                let msg = String::from_str("Invalid time string: ").concat(text);
                Err(TimeError::ParseError(msg))
            },
        }
    }

    /// Tries `common_formats` on `text`, one after the other, and RFC 3339
    /// after the last: the first reading that succeeds is returned.
    pub fn read_common(text: &str) -> (r: Option<(i64, u32)>)
        ensures
            r == common_parse(text@),
    {
        let mut index: usize = 0;
        while index < COMMON_FORMAT_COUNT
            invariant
                index <= COMMON_FORMAT_COUNT,
                first_with_format(text@, 0) == first_with_format(text@, index as int),
            decreases COMMON_FORMAT_COUNT - index,
        {
            match parse_with_format(text, common_format(index)) {
                Ok(parts) => {
                    return Some(parts);
                },
                Err(_) => {},
            }
            index = index + 1;
        }
        parse_rfc3339(text)
    }

    /// Reads `text` in the first of the common formats that fits it: those
    /// of `common_formats` in their order, then RFC 3339. `ParseError`
    /// holding the text where none fits.
    pub fn from_common_formats(text: &str) -> (r: Result<Time, TimeError>)
        ensures
            match common_parse(text@) {
                Some((secs, nanos)) => is_instant(r, secs, nanos),
                None => {
                    &&& r matches Err(TimeError::ParseError(msg))
                    &&& msg@ == unreadable_text(text@)
                },
            },
    {
        Self::from_common_outcome(text, Self::read_common(text))
    }

    /// An instant made with `from_epoch_seconds` has those seconds as its
    /// timestamp, whatever the seconds are.
    pub proof fn law_epoch_seconds_round_trip(secs: u64)
        ensures
            Self::spec_from_epoch_seconds(secs).wf(),
            Self::spec_from_epoch_seconds(secs).spec_timestamp() == Ok::<u64, TimeError>(secs),
    {
        Self::lemma_at(secs * 1_000_000_000);
    }

    /// An instant moved back by more than lies between the epoch and itself
    /// lies before the epoch: it has no timestamp and no calendar reading.
    pub proof fn law_sub_past_epoch_is_invalid(self, span: CustomDuration)
        requires
            self.wf(),
            span.wf(),
            self@ < span@,
            self@ - span@ >= i128::MIN,
        ensures
            self.spec_sub_duration(span)@ < 0,
            self.spec_sub_duration(span).spec_timestamp() == Err::<u64, TimeError>(
                TimeError::InvalidTime,
            ),
            self.spec_sub_duration(span).utc_datetime() is None,
    {
        Self::lemma_at(self@ - span@);
    }

    /// Moving an instant forward by a span and back by the same span gives
    /// the instant again, and so the same timestamp.
    pub proof fn law_add_then_sub_restores(self, span: CustomDuration)
        requires
            self.wf(),
            span.wf(),
            self@ + span@ <= i128::MAX,
        ensures
            self.spec_add_duration(span).spec_sub_duration(span)@ == self@,
            self.spec_add_duration(span).spec_sub_duration(span).spec_timestamp()
                == self.spec_timestamp(),
    {
        span.lemma_view_determines();
        Self::lemma_at(self@ + span@);
        Self::lemma_at(self@);
    }
}

impl core::str::FromStr for Time {
    type Err = TimeError;

    /// Reads `s` as `Time::from_common_formats` does.
    fn from_str(s: &str) -> Result<Time, TimeError> {
        Time::from_common_formats(s)
    }
}

} // verus!
