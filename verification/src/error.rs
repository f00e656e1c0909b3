//! The error kinds shared by instants and spans.

use vstd::prelude::*;

verus! {

/// Why an operation on an instant or a span could not produce a value.
#[derive(Debug, Clone)]
pub enum TimeError {
    /// The instant lies before the epoch, or outside the range that the
    /// calendar can express.
    InvalidTime,
    /// A format string and a text did not fit together; the payload names
    /// both and gives the parser's diagnostic.
    InvalidTimeFormat(String),
    /// The payload is the text that was given as a UTC offset and is none.
    InvalidTimezoneFormat(String),
    /// A text could not be read as a span, or as an instant in any of the
    /// common formats; the payload holds the text.
    ParseError(String),
    /// A span was divided by zero.
    DivisionByZero,
    /// A subtraction of spans would have gone below zero.
    NegativeDuration,
}

impl TimeError {
    /// The line that describes this error to a reader.
    pub open spec fn message_spec(&self) -> Seq<char> {
        match self {
            TimeError::InvalidTime => "Invalid time"@,
            TimeError::InvalidTimeFormat(msg) => "Invalid time format: "@ + msg@,
            TimeError::InvalidTimezoneFormat(msg) => "Invalid timezone format: "@ + msg@,
            TimeError::ParseError(msg) => "Parse error: "@ + msg@,
            TimeError::DivisionByZero => "Division by zero"@,
            TimeError::NegativeDuration => "Negative duration"@,
        }
    }

    /// Renders the error as one line of text: the kind, then a colon and the
    /// payload where the kind carries one.
    pub fn message(&self) -> (text: String)
        ensures
            text@ == self.message_spec(),
    {
        match self {
            TimeError::InvalidTime => String::from_str("Invalid time"),
            TimeError::InvalidTimeFormat(msg) => {
                String::from_str("Invalid time format: ").concat(msg.as_str())
            },
            TimeError::InvalidTimezoneFormat(msg) => {
                String::from_str("Invalid timezone format: ").concat(msg.as_str())
            },
            TimeError::ParseError(msg) => String::from_str("Parse error: ").concat(msg.as_str()),
            TimeError::DivisionByZero => String::from_str("Division by zero"),
            TimeError::NegativeDuration => String::from_str("Negative duration"),
        }
    }
}

} // verus!
