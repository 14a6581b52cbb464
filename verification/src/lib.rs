//! Bus time values and their conversions to and from host clocks.
//!
//! The bus carries time as two signed 32-bit integers. This crate converts such
//! values to and from the time types of the host (`std::time` and `chrono`),
//! rejecting every value that the other side cannot hold, and proves what each
//! conversion returns.

pub mod calendar;
pub mod error;
pub mod host;
pub mod identity;
pub mod time;

pub use calendar::UtcDateTime;
pub use error::ConversionError;
pub use identity::{TypeIdentity, TypeIncompatibility};
pub use time::{Duration, Time, NANOS_PER_SEC};
