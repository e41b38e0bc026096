//! Conversion layer between jiff-backed civil dates, date-times, fixed
//! offsets and zoned values, and a dynamically typed host's temporal objects.

pub mod error;
pub mod calendar;
pub mod jiff_calls;
pub mod host;
pub mod civil;
pub mod offset;
pub mod zoned;
pub mod cache;
pub mod restricted;
