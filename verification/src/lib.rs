//! Wall-clock instants and elapsed-time spans.
//!
//! [`Time`] is a point in time, counted in nanoseconds from the epoch
//! 1970-01-01T00:00:00Z; [`CustomDuration`] is a non-negative span with
//! nanosecond precision. Their arithmetic is verified: every function states
//! in its contract what it returns, and on which inputs it fails with a
//! [`TimeError`].
//!
//! The calendar and the wording of spans are not this library's own. Dates,
//! strftime-style formats and UTC offsets are chrono's work (module
//! [`calendar`]), spans in words are humantime's (module [`human`]), and the
//! clock is the system's. The contracts of the functions that call them
//! speak of their results by name.

pub mod calendar;
mod clock;
pub mod duration;
pub mod error;
pub mod human;
pub mod ops;
pub mod ordering;
pub mod time;

pub use crate::calendar::UtcDateTime;
pub use crate::duration::CustomDuration;
pub use crate::error::TimeError;
pub use crate::time::Time;
