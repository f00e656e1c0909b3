//! Elapsed-time spans with nanosecond precision.

use crate::error::TimeError;
use crate::human::{
    check_parse_limits, format_human, human_readable, parse_human, parsed_duration,
    within_parse_limits,
};
use vstd::prelude::*;
use vstd::string::StringSliceAdditionalSpecFns;

verus! {

/// Nanoseconds in one second.
pub const NANOS_PER_SEC: u32 = 1_000_000_000;

/// The longest span, in nanoseconds: `u64::MAX` whole seconds and
/// 999,999,999 nanoseconds.
pub const MAX_NANOS: u128 = 18_446_744_073_709_551_615_999_999_999;

/// A non-negative span of elapsed time: whole seconds and a sub-second part
/// in nanoseconds.
///
/// Its view is the magnitude in nanoseconds.
#[derive(Clone, Copy, Debug, PartialEq, Eq, Structural)]
pub struct CustomDuration {
    secs: u64,
    nanos: u32,
}

impl View for CustomDuration {
    type V = nat;

    closed spec fn view(&self) -> nat {
        (self.secs as nat) * 1_000_000_000 + (self.nanos as nat)
    }
}

impl CustomDuration {
    /// The sub-second part stays below one second, so that a magnitude has
    /// one representation only.
    #[verifier::type_invariant]
    pub closed spec fn wf(self) -> bool {
        self.nanos < NANOS_PER_SEC
    }

    /// The span whose magnitude is `n` nanoseconds.
    pub closed spec fn of_nanos(n: nat) -> CustomDuration {
        CustomDuration { secs: (n / 1_000_000_000) as u64, nanos: (n % 1_000_000_000) as u32 }
    }

    /// The sum of two spans.
    pub open spec fn spec_add(self, other: CustomDuration) -> CustomDuration {
        Self::of_nanos(self@ + other@)
    }

    /// The span taken `scalar` times.
    pub open spec fn spec_mul(self, scalar: u32) -> CustomDuration {
        Self::of_nanos(self@ * (scalar as nat))
    }

    /// The difference of two spans, which is `NegativeDuration` where
    /// `other` is the longer one.
    pub open spec fn spec_sub(self, other: CustomDuration) -> Result<CustomDuration, TimeError> {
        if self@ >= other@ {
            Ok(Self::of_nanos((self@ - other@) as nat))
        } else {
            Err(TimeError::NegativeDuration)
        }
    }

    /// The span divided by `divisor`, rounded down to a whole nanosecond,
    /// which is `DivisionByZero` where `divisor` is zero.
    pub open spec fn spec_div(self, divisor: u32) -> Result<CustomDuration, TimeError> {
        if divisor != 0 {
            Ok(Self::of_nanos(self@ / (divisor as nat)))
        } else {
            Err(TimeError::DivisionByZero)
        }
    }

    /// The span without its sub-second part.
    pub open spec fn spec_round_secs(self) -> CustomDuration {
        Self::of_nanos(((self@ / 1_000_000_000) * 1_000_000_000) as nat)
    }

    /// Every magnitude up to `MAX_NANOS` has a span, which is valid and has
    /// that magnitude.
    pub proof fn lemma_of_nanos(n: nat)
        requires
            n <= MAX_NANOS,
        ensures
            Self::of_nanos(n).wf(),
            Self::of_nanos(n)@ == n,
    {
    }

    /// A valid span is the span of its magnitude, and no magnitude exceeds
    /// `MAX_NANOS`.
    pub proof fn lemma_view_determines(self)
        requires
            self.wf(),
        ensures
            self@ <= MAX_NANOS,
            Self::of_nanos(self@) == self,
    {
    }

    /// The span of `total` nanoseconds.
    fn from_total_nanos(total: u128) -> (r: Self)
        requires
            total <= MAX_NANOS,
        ensures
            r == Self::of_nanos(total as nat),
            r@ == total,
    {
        let secs: u64 = (total / 1_000_000_000) as u64;
        let nanos: u32 = (total % 1_000_000_000) as u32;
        CustomDuration { secs, nanos }
    }

    /// A span of `secs` whole seconds.
    pub fn from_secs(secs: u64) -> (r: Self)
        ensures
            r@ == secs as nat * 1_000_000_000,
    {
        CustomDuration { secs, nanos: 0 }
    }

    /// A span of `millis` milliseconds.
    pub fn from_millis(millis: u64) -> (r: Self)
        ensures
            r@ == millis as nat * 1_000_000,
    {
        let secs: u64 = millis / 1_000;
        let nanos: u32 = ((millis % 1_000) as u32) * 1_000_000;
        CustomDuration { secs, nanos }
    }

    /// A span of `micros` microseconds.
    pub fn from_micros(micros: u64) -> (r: Self)
        ensures
            r@ == micros as nat * 1_000,
    {
        let secs: u64 = micros / 1_000_000;
        let nanos: u32 = ((micros % 1_000_000) as u32) * 1_000;
        CustomDuration { secs, nanos }
    }

    /// A span of `nanos` nanoseconds.
    pub fn from_nanos(nanos: u64) -> (r: Self)
        ensures
            r@ == nanos as nat,
    {
        let secs: u64 = nanos / 1_000_000_000;
        let sub: u32 = (nanos % 1_000_000_000) as u32;
        CustomDuration { secs, nanos: sub }
    }

    /// The whole seconds in the span; the sub-second part is dropped.
    pub fn as_secs(&self) -> (r: u64)
        ensures
            r == self@ / 1_000_000_000,
    {
        proof {
            use_type_invariant(self);
        }
        self.secs
    }

    /// The whole milliseconds in the span.
    pub fn as_millis(&self) -> (r: u128)
        ensures
            r == self@ / 1_000_000,
    {
        proof {
            use_type_invariant(self);
        }
        (self.secs as u128) * 1_000 + ((self.nanos / 1_000_000) as u128)
    }

    /// The whole microseconds in the span.
    pub fn as_micros(&self) -> (r: u128)
        ensures
            r == self@ / 1_000,
    {
        proof {
            use_type_invariant(self);
        }
        (self.secs as u128) * 1_000_000 + ((self.nanos / 1_000) as u128)
    }

    /// The span in nanoseconds, which is its exact magnitude.
    pub fn as_nanos(&self) -> (r: u128)
        ensures
            r == self@,
            r <= MAX_NANOS,
    {
        proof {
            use_type_invariant(self);
        }
        (self.secs as u128) * 1_000_000_000 + (self.nanos as u128)
    }

    /// Adds two spans. The sum has to be a span: it may not exceed
    /// `MAX_NANOS`.
    pub fn add(&self, other: &CustomDuration) -> (r: CustomDuration)
        requires
            self@ + other@ <= MAX_NANOS,
        ensures
            r == self.spec_add(*other),
            r@ == self@ + other@,
    {
        let total: u128 = self.as_nanos() + other.as_nanos();
        Self::from_total_nanos(total)
    }

    /// Subtracts `other` from this span. A difference below zero is no span:
    /// it is reported as `NegativeDuration`.
    pub fn sub(&self, other: &CustomDuration) -> (r: Result<CustomDuration, TimeError>)
        ensures
            r == self.spec_sub(*other),
            r is Ok <==> self@ >= other@,
            r matches Ok(d) ==> d@ == self@ - other@,
    {
        let a: u128 = self.as_nanos();
        let b: u128 = other.as_nanos();
        if a < b {
            Err(TimeError::NegativeDuration)
        } else {
            Ok(Self::from_total_nanos(a - b))
        }
    }

    /// Takes this span `scalar` times. The product has to be a span: it may
    /// not exceed `MAX_NANOS`.
    pub fn mul(&self, scalar: u32) -> (r: CustomDuration)
        requires
            self@ * (scalar as nat) <= MAX_NANOS,
        ensures
            r == self.spec_mul(scalar),
            r@ == self@ * (scalar as nat),
    {
        let a: u128 = self.as_nanos();
        assert(a * (scalar as u128) == self@ * (scalar as nat)) by (nonlinear_arith)
            requires
                a == self@,
        ;
        let total: u128 = a * (scalar as u128);
        Self::from_total_nanos(total)
    }

    /// Divides this span by `divisor`, rounding down to a whole nanosecond.
    /// A zero divisor is reported as `DivisionByZero`.
    pub fn div(&self, divisor: u32) -> (r: Result<CustomDuration, TimeError>)
        ensures
            r == self.spec_div(divisor),
            r is Ok <==> divisor != 0,
            r matches Ok(d) ==> d@ == self@ / (divisor as nat),
    {
        if divisor == 0 {
            Err(TimeError::DivisionByZero)
        } else {
            let a: u128 = self.as_nanos();
            let q: u128 = a / (divisor as u128);
            assert(q <= a) by (nonlinear_arith)
                requires
                    q == a / (divisor as u128),
                    divisor > 0,
            ;
            Ok(Self::from_total_nanos(q))
        }
    }

    /// Drops the sub-second part: the result is the largest span of whole
    /// seconds that does not exceed this one.
    pub fn round_secs(&self) -> (r: CustomDuration)
        ensures
            r == self.spec_round_secs(),
            r@ == (self@ / 1_000_000_000) * 1_000_000_000,
            r@ % 1_000_000_000 == 0,
            r@ <= self@ < r@ + 1_000_000_000,
    {
        proof {
            use_type_invariant(self);
        }
        CustomDuration { secs: self.secs, nanos: 0 }
    }

    /// Turns the outcome of reading `text` as a span into this library's
    /// result: the span, or `ParseError` with the text and the diagnostic.
    pub fn from_parse_outcome(
        text: &str,
        outcome: Result<(u64, u32), String>,
    ) -> (r: Result<CustomDuration, TimeError>)
        requires
            outcome matches Ok((_, nanos)) ==> nanos < NANOS_PER_SEC,
        ensures
            match outcome {
                Ok((secs, nanos)) => is_span(r, secs, nanos),
                Err(diagnostic) => rejects_text(r, text@, diagnostic@),
            },
    {
        match outcome {
            Ok((secs, nanos)) => Ok(CustomDuration { secs, nanos }),
            Err(diagnostic) => {
                let msg = String::from_str("Failed to parse '")
                    .concat(text)
                    .concat("': ")
                    .concat(diagnostic.as_str());
                Err(TimeError::ParseError(msg))
            },
        }
    }

    /// Reads a span written in words, such as `1h 30m` or `5s`. `ParseError`
    /// with the text and the diagnostic where the text is no span, and also
    /// where it exceeds the limits of `within_parse_limits`.
    pub fn from_str(duration_str: &str) -> (r: Result<CustomDuration, TimeError>)
        ensures
            if within_parse_limits(duration_str.spec_bytes()) {
                match parsed_duration(duration_str@) {
                    Ok((secs, nanos)) => is_span(r, secs, nanos),
                    Err(diagnostic) => rejects_text(r, duration_str@, diagnostic),
                }
            } else {
                rejects_text(r, duration_str@, "too many digits"@)
            },
    {
        if check_parse_limits(duration_str) {
            Self::from_parse_outcome(duration_str, parse_human(duration_str))
        } else {
            Self::from_parse_outcome(duration_str, Err(String::from_str("too many digits")))
        }
    }

    /// Writes the span in words, as in `1h 30m`: its parts from years down
    /// to nanoseconds, the greatest first, those that are zero left out.
    pub fn format_human_readable(&self) -> (r: String)
        ensures
            r@ == human_readable(
                (self@ / 1_000_000_000) as u64,
                (self@ % 1_000_000_000) as u32,
            ),
    {
        proof {
            use_type_invariant(self);
        }
        format_human(self.secs, self.nanos)
    }

    /// The sum of two spans has the sum of their nanoseconds, wherever that
    /// sum is a span.
    pub proof fn law_add_sums_nanos(self, other: CustomDuration)
        requires
            self.wf(),
            other.wf(),
            self@ + other@ <= MAX_NANOS,
        ensures
            self.spec_add(other).wf(),
            self.spec_add(other)@ == self@ + other@,
    {
        Self::lemma_of_nanos(self@ + other@);
    }

    /// A span taken twice is the span added to itself.
    pub proof fn law_twice_is_sum_with_self(self)
        requires
            self.wf(),
        ensures
            self.spec_mul(2) == self.spec_add(self),
            self.spec_mul(2)@ == self.spec_add(self)@,
    {
    }

    /// Two valid spans are equal exactly where their magnitudes are.
    pub proof fn law_equal_by_magnitude(self, other: CustomDuration)
        requires
            self.wf(),
            other.wf(),
        ensures
            self == other <==> self@ == other@,
    {
        self.lemma_view_determines();
        other.lemma_view_determines();
    }
}

/// The payload of the error for a text that is no span.
pub open spec fn span_failure_text(text: Seq<char>, diagnostic: Seq<char>) -> Seq<char> {
    "Failed to parse '"@ + text + "': "@ + diagnostic
}

/// `r` is the span of `secs` seconds and `nanos` nanoseconds.
pub open spec fn is_span(r: Result<CustomDuration, TimeError>, secs: u64, nanos: u32) -> bool {
    &&& r matches Ok(span)
    &&& span == CustomDuration::of_nanos((secs * 1_000_000_000 + nanos) as nat)
    &&& span@ == secs * 1_000_000_000 + nanos
}

/// `r` is `ParseError` with `text` and `diagnostic`.
pub open spec fn rejects_text(
    r: Result<CustomDuration, TimeError>,
    text: Seq<char>,
    diagnostic: Seq<char>,
) -> bool {
    r matches Err(TimeError::ParseError(msg)) && msg@ == span_failure_text(text, diagnostic)
}

} // verus!
