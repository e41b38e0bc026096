use vstd::prelude::*;
use crate::calendar::offset_valid;
use crate::error::{ConversionError, Field};
use crate::host::{HostDelta, HostObject, HostTzInfo, extract_tzinfo};
use crate::jiff_calls::jiff_accepts_offset;

verus! {

/// Seconds in a day of the host's time spans.
pub const SECONDS_PER_DAY: i64 = 86400;

/// The signed whole seconds of a host time span.
pub open spec fn delta_seconds(d: HostDelta) -> int {
    d.days * SECONDS_PER_DAY + d.seconds
}

/// Why a host time span is no fixed offset: a sub-second part does not fit
/// a whole-second offset, and the seconds must lie within the offset bound.
pub open spec fn delta_offset_error(d: HostDelta) -> Option<ConversionError> {
    if d.microseconds != 0 {
        Some(ConversionError::FieldExtractionFailure(Field::Offset))
    } else if !offset_valid(delta_seconds(d)) {
        Some(ConversionError::OffsetOutOfRange)
    } else {
        None
    }
}

/// Why a host timezone gives no fixed offset: its naive-offset query
/// answers nothing (it is no fixed-offset zone), or the span it answers is
/// no fixed offset.
pub open spec fn tzinfo_offset_error(tz: HostTzInfo) -> Option<ConversionError> {
    match tz.utcoffset {
        None => Some(ConversionError::MissingTimezone),
        Some(d) => delta_offset_error(d),
    }
}

/// A whole-second offset from UTC within -25:59:59..=25:59:59.
#[derive(Debug, Clone, Copy, PartialEq, Eq, Structural)]
pub struct FixedOffset {
    seconds: i32,
}

impl FixedOffset {
    #[verifier::type_invariant]
    spec fn inv(&self) -> bool {
        offset_valid(self.seconds as int)
    }

    pub closed spec fn spec_seconds(&self) -> i32 {
        self.seconds
    }

    /// The offset is within the bound; every offset built by this library is.
    pub open spec fn is_valid(&self) -> bool {
        offset_valid(self.seconds() as int)
    }

    /// The offset in seconds east of UTC.
    #[verifier::when_used_as_spec(spec_seconds)]
    pub fn seconds(&self) -> (r: i32)
        ensures
            r == self.spec_seconds(),
            self.is_valid(),
    {
        proof {
            use_type_invariant(self);
        }
        self.seconds
    }

    /// The offset of `seconds` seconds; fails with `OffsetOutOfRange` beyond
    /// the bound.
    pub fn from_seconds(seconds: i32) -> (r: Result<FixedOffset, ConversionError>)
        ensures
            r is Ok <==> offset_valid(seconds as int),
            r matches Ok(o) ==> o.seconds() == seconds,
            r matches Err(e) ==> e == ConversionError::OffsetOutOfRange,
    {
        if jiff_accepts_offset(seconds) {
            Ok(FixedOffset { seconds })
        } else {
            Err(ConversionError::OffsetOutOfRange)
        }
    }

    /// Reads a host time span as a fixed offset.
    pub fn from_delta(d: &HostDelta) -> (r: Result<FixedOffset, ConversionError>)
        ensures
            r is Err <==> delta_offset_error(*d) is Some,
            r matches Err(e) ==> delta_offset_error(*d) == Some(e),
            r matches Ok(o) ==> o.seconds() == delta_seconds(*d),
    {
        if d.microseconds != 0 {
            return Err(ConversionError::FieldExtractionFailure(Field::Offset));
        }
        let total: i64 = d.days as i64 * SECONDS_PER_DAY + d.seconds as i64;
        if total < i32::MIN as i64 || total > i32::MAX as i64 {
            return Err(ConversionError::OffsetOutOfRange);
        }
        FixedOffset::from_seconds(total as i32)
    }

    /// The result of resolving the fixed offset of a host timezone.
    pub closed spec fn from_tzinfo_spec(tz: HostTzInfo) -> Result<FixedOffset, ConversionError> {
        match tzinfo_offset_error(tz) {
            Some(e) => Err(e),
            None => Ok(FixedOffset { seconds: delta_seconds(tz.utcoffset->Some_0) as i32 }),
        }
    }

    /// Resolves the fixed offset of a host timezone from the answer of its
    /// naive-offset query.
    pub fn from_tzinfo(tz: &HostTzInfo) -> (r: Result<FixedOffset, ConversionError>)
        ensures
            r == FixedOffset::from_tzinfo_spec(*tz),
            r is Err <==> tzinfo_offset_error(*tz) is Some,
            r matches Err(e) ==> tzinfo_offset_error(*tz) == Some(e),
            r matches Ok(o) ==> o.seconds() == delta_seconds(tz.utcoffset->Some_0),
    {
        match &tz.utcoffset {
            None => Err(ConversionError::MissingTimezone),
            Some(d) => {
                let r = FixedOffset::from_delta(d);
                proof {
                    if let Ok(o) = r {
                        use_type_invariant(o);
                    }
                }
                r
            },
        }
    }

    /// Converts a host timezone object to a fixed offset.
    pub fn from_native(ob: &HostObject) -> (r: Result<FixedOffset, ConversionError>)
        ensures
            r == (match *ob {
                HostObject::TzInfo(tz) => FixedOffset::from_tzinfo_spec(tz),
                _ => Err(ConversionError::TypeMismatch(crate::error::TemporalKind::TzInfo)),
            }),
            !(*ob is TzInfo) ==> r == Err::<FixedOffset, ConversionError>(
                ConversionError::TypeMismatch(crate::error::TemporalKind::TzInfo),
            ),
            *ob matches HostObject::TzInfo(tz) ==> {
                &&& r is Err <==> tzinfo_offset_error(tz) is Some
                &&& r matches Err(e) ==> tzinfo_offset_error(tz) == Some(e)
                &&& r matches Ok(o) ==> o.seconds() == delta_seconds(tz.utcoffset->Some_0)
            },
    {
        let tz = extract_tzinfo(ob)?;
        FixedOffset::from_tzinfo(&tz)
    }
}

} // verus!
