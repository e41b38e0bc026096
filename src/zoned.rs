use vstd::prelude::*;
use crate::civil::{CivilDateTime, datetime_fields_error, micros_to_nanos};
use crate::error::{ConversionError, TemporalKind};
use crate::host::{HostDateTime, HostObject, extract_datetime};
use crate::jiff_calls::{jiff_zoned_instant, zoned_instant};
use crate::offset::{FixedOffset, delta_seconds, tzinfo_offset_error};

verus! {

/// A point on the UTC timeline: whole seconds since the Unix epoch, counted
/// toward zero, and the remaining nanoseconds, which carry the instant's sign.
#[derive(Debug, Clone, Copy, PartialEq, Eq, Structural)]
pub struct Instant {
    pub second: i64,
    pub nanosecond: i32,
}

/// The instant that `dt` names when read in `offset`, if it is representable.
pub open spec fn instant_of(dt: CivilDateTime, offset: FixedOffset) -> Option<(i64, i32)> {
    zoned_instant(
        dt.date().year() as int,
        dt.date().month() as int,
        dt.date().day() as int,
        dt.hour() as int,
        dt.minute() as int,
        dt.second() as int,
        dt.subsec_nanosecond() as int,
        offset.seconds() as int,
    )
}

/// The offset seconds of the zone attached to host date-time fields `f`.
pub open spec fn attached_offset(f: HostDateTime) -> int {
    delta_seconds(f.tzinfo->Some_0.utcoffset->Some_0)
}

/// The instant named by host date-time fields `f` in their attached offset.
pub open spec fn fields_instant(f: HostDateTime) -> Option<(i64, i32)> {
    zoned_instant(
        f.date.year as int,
        f.date.month as int,
        f.date.day as int,
        f.time.hour as int,
        f.time.minute as int,
        f.time.second as int,
        micros_to_nanos(f.time.microsecond as int),
        attached_offset(f),
    )
}

/// The first failure met when host date-time fields are read as a zoned
/// date-time: no zone, then the zone's offset, then the date-time fields,
/// then an instant out of range.
pub open spec fn zoned_fields_error(f: HostDateTime) -> Option<ConversionError> {
    match f.tzinfo {
        None => Some(ConversionError::MissingTimezone),
        Some(tz) => if tzinfo_offset_error(tz) is Some {
            tzinfo_offset_error(tz)
        } else if datetime_fields_error(f) is Some {
            datetime_fields_error(f)
        } else if fields_instant(f) is None {
            Some(ConversionError::CalendarOverflow)
        } else {
            None
        },
    }
}

/// A civil date-time read as wall-clock time in a fixed offset, with the
/// instant it names.
#[derive(Debug, Clone, Copy, PartialEq, Eq, Structural)]
pub struct ZonedDateTime {
    datetime: CivilDateTime,
    offset: FixedOffset,
    instant: Instant,
}

impl ZonedDateTime {
    #[verifier::type_invariant]
    spec fn inv(&self) -> bool {
        instant_of(self.datetime, self.offset) == Some((self.instant.second, self.instant.nanosecond))
    }

    pub closed spec fn spec_datetime(&self) -> CivilDateTime {
        self.datetime
    }

    pub closed spec fn spec_offset(&self) -> FixedOffset {
        self.offset
    }

    pub closed spec fn spec_timestamp(&self) -> Instant {
        self.instant
    }

    #[verifier::when_used_as_spec(spec_datetime)]
    pub fn datetime(&self) -> (r: CivilDateTime)
        ensures
            r == self.spec_datetime(),
    {
        self.datetime
    }

    #[verifier::when_used_as_spec(spec_offset)]
    pub fn offset(&self) -> (r: FixedOffset)
        ensures
            r == self.spec_offset(),
    {
        self.offset
    }

    /// The instant this value names.
    #[verifier::when_used_as_spec(spec_timestamp)]
    pub fn timestamp(&self) -> (r: Instant)
        ensures
            r == self.spec_timestamp(),
            instant_of(self.datetime(), self.offset()) == Some((r.second, r.nanosecond)),
    {
        proof {
            use_type_invariant(self);
        }
        self.instant
    }

    /// The result of reading `datetime` in `offset`, given the instant that
    /// it names, if any.
    pub closed spec fn new_spec(datetime: CivilDateTime, offset: FixedOffset) -> Result<
        ZonedDateTime,
        ConversionError,
    > {
        match instant_of(datetime, offset) {
            None => Err(ConversionError::CalendarOverflow),
            Some((second, nanosecond)) => Ok(
                ZonedDateTime { datetime, offset, instant: Instant { second, nanosecond } },
            ),
        }
    }

    /// Combines a date-time and an offset with the instant they name:
    /// `CalendarOverflow` where they name none.
    pub fn from_parts(
        datetime: CivilDateTime,
        offset: FixedOffset,
        instant: Option<(i64, i32)>,
    ) -> (r: Result<ZonedDateTime, ConversionError>)
        requires
            instant == instant_of(datetime, offset),
        ensures
            r == ZonedDateTime::new_spec(datetime, offset),
            r is Err <==> instant is None,
            r matches Err(e) ==> e == ConversionError::CalendarOverflow,
            r matches Ok(z) ==> z.datetime() == datetime && z.offset() == offset && instant
                == Some((z.timestamp().second, z.timestamp().nanosecond)),
    {
        match instant {
            None => Err(ConversionError::CalendarOverflow),
            Some((second, nanosecond)) => Ok(
                ZonedDateTime { datetime, offset, instant: Instant { second, nanosecond } },
            ),
        }
    }

    /// Reads `datetime` as wall-clock time in `offset`; fails with
    /// `CalendarOverflow` where the instant it names is not representable.
    pub fn new(datetime: CivilDateTime, offset: FixedOffset) -> (r: Result<
        ZonedDateTime,
        ConversionError,
    >)
        ensures
            r == ZonedDateTime::new_spec(datetime, offset),
            r is Err <==> instant_of(datetime, offset) is None,
            r matches Err(e) ==> e == ConversionError::CalendarOverflow,
            r matches Ok(z) ==> z.datetime() == datetime && z.offset() == offset && instant_of(
                datetime,
                offset,
            ) == Some((z.timestamp().second, z.timestamp().nanosecond)),
    {
        let date = datetime.date();
        let seconds = offset.seconds();
        let instant = jiff_zoned_instant(
            date.year(),
            date.month(),
            date.day(),
            datetime.hour(),
            datetime.minute(),
            datetime.second(),
            datetime.subsec_nanosecond(),
            seconds,
        );
        ZonedDateTime::from_parts(datetime, offset, instant)
    }

    /// The result of reading `ob` as a zoned date-time.
    pub open spec fn from_native_spec(ob: HostObject) -> Result<ZonedDateTime, ConversionError> {
        match ob {
            HostObject::DateTime(f) => match f.tzinfo {
                None => Err(ConversionError::MissingTimezone),
                Some(tz) => match FixedOffset::from_tzinfo_spec(tz) {
                    Err(e) => Err(e),
                    Ok(offset) => match CivilDateTime::from_fields_spec(f) {
                        Err(e) => Err(e),
                        Ok(dt) => ZonedDateTime::new_spec(dt, offset),
                    },
                },
            },
            _ => Err(ConversionError::TypeMismatch(TemporalKind::DateTime)),
        }
    }

    /// Converts a host date-time object with an attached fixed-offset zone:
    /// the offset is resolved first, then the date-time is read, then the two
    /// are combined.
    pub fn from_native(ob: &HostObject) -> (r: Result<ZonedDateTime, ConversionError>)
        ensures
            r == ZonedDateTime::from_native_spec(*ob),
            !(*ob is DateTime) ==> r == Err::<ZonedDateTime, ConversionError>(
                ConversionError::TypeMismatch(TemporalKind::DateTime),
            ),
            *ob matches HostObject::DateTime(f) ==> {
                &&& r is Err <==> zoned_fields_error(f) is Some
                &&& r matches Err(e) ==> zoned_fields_error(f) == Some(e)
                &&& r matches Ok(z) ==> {
                    &&& z.datetime().has_fields(f)
                    &&& z.offset().seconds() == attached_offset(f)
                    &&& fields_instant(f) == Some((z.timestamp().second, z.timestamp().nanosecond))
                }
            },
    {
        let f = extract_datetime(ob)?;
        let tz = match f.tzinfo {
            None => return Err(ConversionError::MissingTimezone),
            Some(tz) => tz,
        };
        let offset = FixedOffset::from_tzinfo(&tz)?;
        let datetime = CivilDateTime::from_fields(&f)?;
        ZonedDateTime::new(datetime, offset)
    }
}

impl Instant {
    /// The result of reading `ob` as an instant.
    pub open spec fn from_native_spec(ob: HostObject) -> Result<Instant, ConversionError> {
        match ZonedDateTime::from_native_spec(ob) {
            Ok(z) => Ok(z.timestamp()),
            Err(e) => Err(e),
        }
    }

    /// Converts a host date-time object with an attached fixed-offset zone
    /// to the instant it names.
    pub fn from_native(ob: &HostObject) -> (r: Result<Instant, ConversionError>)
        ensures
            r == Instant::from_native_spec(*ob),
            !(*ob is DateTime) ==> r == Err::<Instant, ConversionError>(
                ConversionError::TypeMismatch(TemporalKind::DateTime),
            ),
            *ob matches HostObject::DateTime(f) ==> {
                &&& r is Err <==> zoned_fields_error(f) is Some
                &&& r matches Err(e) ==> zoned_fields_error(f) == Some(e)
                &&& r matches Ok(i) ==> fields_instant(f) == Some((i.second, i.nanosecond))
            },
    {
        let z = ZonedDateTime::from_native(ob)?;
        Ok(z.timestamp())
    }
}

} // verus!
