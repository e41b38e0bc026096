use vstd::prelude::*;
use crate::error::{ConversionError, TemporalKind};

verus! {

/// The fields of a host date object, at the widths the host exposes them.
#[derive(Debug, Clone, Copy, PartialEq, Eq, Structural)]
pub struct HostDate {
    pub year: i32,
    pub month: u8,
    pub day: u8,
}

/// The fields of a host time-span object; the span is
/// `days * 86400 + seconds` seconds plus `microseconds` microseconds.
#[derive(Debug, Clone, Copy, PartialEq, Eq, Structural)]
pub struct HostDelta {
    pub days: i32,
    pub seconds: i32,
    pub microseconds: i32,
}

/// A host timezone object, seen through its naive-offset query: what it
/// answers when asked for its UTC offset without a reference moment.
#[derive(Debug, Clone, Copy, PartialEq, Eq, Structural)]
pub struct HostTzInfo {
    pub utcoffset: Option<HostDelta>,
}

/// The clock fields of a host date-time object.
#[derive(Debug, Clone, Copy, PartialEq, Eq, Structural)]
pub struct HostTime {
    pub hour: u8,
    pub minute: u8,
    pub second: u8,
    pub microsecond: u32,
}

/// A host date-time object: a date, a time of day and an optional zone.
#[derive(Debug, Clone, Copy, PartialEq, Eq, Structural)]
pub struct HostDateTime {
    pub date: HostDate,
    pub time: HostTime,
    pub tzinfo: Option<HostTzInfo>,
}

/// A host object as it is seen through typed accessors: its runtime type
/// and the fields of that type.
#[derive(Debug, Clone, Copy, PartialEq, Eq, Structural)]
pub enum HostObject {
    Date(HostDate),
    /// A date-time; the host treats it as a date as well.
    DateTime(HostDateTime),
    Delta(HostDelta),
    TzInfo(HostTzInfo),
    NoneValue,
    Other,
}

/// The date fields of `ob` read as a date, if it is one.
pub open spec fn date_of(ob: HostObject) -> Option<HostDate> {
    match ob {
        HostObject::Date(d) => Some(d),
        HostObject::DateTime(dt) => Some(dt.date),
        _ => None,
    }
}

/// Reads the date fields of a host date (or date-time) object.
pub fn extract_date(ob: &HostObject) -> (r: Result<HostDate, ConversionError>)
    ensures
        r == (match date_of(*ob) {
            Some(d) => Ok(d),
            None => Err(ConversionError::TypeMismatch(TemporalKind::Date)),
        }),
{
    match ob {
        HostObject::Date(d) => Ok(*d),
        HostObject::DateTime(dt) => Ok(dt.date),
        _ => Err(ConversionError::TypeMismatch(TemporalKind::Date)),
    }
}

/// Reads the fields of a host date-time object.
pub fn extract_datetime(ob: &HostObject) -> (r: Result<HostDateTime, ConversionError>)
    ensures
        r == (match *ob {
            HostObject::DateTime(dt) => Ok(dt),
            _ => Err(ConversionError::TypeMismatch(TemporalKind::DateTime)),
        }),
{
    match ob {
        HostObject::DateTime(dt) => Ok(*dt),
        _ => Err(ConversionError::TypeMismatch(TemporalKind::DateTime)),
    }
}

/// Reads a host timezone object.
pub fn extract_tzinfo(ob: &HostObject) -> (r: Result<HostTzInfo, ConversionError>)
    ensures
        r == (match *ob {
            HostObject::TzInfo(tz) => Ok(tz),
            _ => Err(ConversionError::TypeMismatch(TemporalKind::TzInfo)),
        }),
{
    match ob {
        HostObject::TzInfo(tz) => Ok(*tz),
        _ => Err(ConversionError::TypeMismatch(TemporalKind::TzInfo)),
    }
}

} // verus!
