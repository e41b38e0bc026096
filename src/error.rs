use vstd::prelude::*;

verus! {

/// The logical kinds of host temporal objects.
#[derive(Debug, Clone, Copy, PartialEq, Eq, Structural)]
pub enum TemporalKind {
    Date,
    DateTime,
    Delta,
    TzInfo,
}

/// A field read from a host object.
#[derive(Debug, Clone, Copy, PartialEq, Eq, Structural)]
pub enum Field {
    Year,
    Month,
    Day,
    Hour,
    Minute,
    Second,
    Microsecond,
    Offset,
}

/// Why a conversion failed.
#[derive(Debug, Clone, Copy, PartialEq, Eq, Structural)]
pub enum ConversionError {
    /// The host object is not of the expected kind.
    TypeMismatch(TemporalKind),
    /// A field could not be read or does not fit the target width.
    FieldExtractionFailure(Field),
    /// The fields do not form a valid date or time.
    CalendarOverflow,
    /// A zone or offset was required and none was attached.
    MissingTimezone,
    /// The offset is beyond what a fixed offset can hold.
    OffsetOutOfRange,
}

impl TemporalKind {
    /// The host's name for this kind, for diagnostics naming a missing type.
    pub fn name(&self) -> (r: &'static str)
        ensures
            *self is Date ==> r@ == "date"@,
            *self is DateTime ==> r@ == "datetime"@,
            *self is Delta ==> r@ == "timedelta"@,
            *self is TzInfo ==> r@ == "tzinfo"@,
    {
        match self {
            TemporalKind::Date => "date",
            TemporalKind::DateTime => "datetime",
            TemporalKind::Delta => "timedelta",
            TemporalKind::TzInfo => "tzinfo",
        }
    }
}

impl Field {
    /// The host's name for this field, for diagnostics naming a bad field.
    pub fn name(&self) -> (r: &'static str)
        ensures
            *self is Year ==> r@ == "year"@,
            *self is Month ==> r@ == "month"@,
            *self is Day ==> r@ == "day"@,
            *self is Hour ==> r@ == "hour"@,
            *self is Minute ==> r@ == "minute"@,
            *self is Second ==> r@ == "second"@,
            *self is Microsecond ==> r@ == "microsecond"@,
            *self is Offset ==> r@ == "utcoffset"@,
    {
        match self {
            Field::Year => "year",
            Field::Month => "month",
            Field::Day => "day",
            Field::Hour => "hour",
            Field::Minute => "minute",
            Field::Second => "second",
            Field::Microsecond => "microsecond",
            Field::Offset => "utcoffset",
        }
    }
}

impl ConversionError {
    /// A human-readable description of the failure kind.
    pub fn message(&self) -> (r: &'static str)
        ensures
            *self is TypeMismatch ==> r@ == "object is not of the expected temporal type"@,
            *self is FieldExtractionFailure ==> r@ == "field could not be read or does not fit"@,
            *self is CalendarOverflow ==> r@ == "invalid or out-of-range date"@,
            *self is MissingTimezone ==> r@ == "missing timezone or not a fixed offset timezone"@,
            *self is OffsetOutOfRange ==> r@ == "fixed offset out of bounds"@,
    {
        match self {
            ConversionError::TypeMismatch(_) => "object is not of the expected temporal type",
            ConversionError::FieldExtractionFailure(_) => "field could not be read or does not fit",
            ConversionError::CalendarOverflow => "invalid or out-of-range date",
            ConversionError::MissingTimezone => "missing timezone or not a fixed offset timezone",
            ConversionError::OffsetOutOfRange => "fixed offset out of bounds",
        }
    }
}

} // verus!
