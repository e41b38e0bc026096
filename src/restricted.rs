use vstd::prelude::*;
use crate::cache::TypeCache;
use crate::civil::{CivilDate, CivilDateTime, date_fields_error, datetime_fields_error};
use crate::error::{ConversionError, Field, TemporalKind};
use crate::host::{HostDate, HostDateTime, HostDelta, HostTime, HostTzInfo};
use crate::offset::{FixedOffset, delta_seconds, tzinfo_offset_error};
use crate::zoned::{Instant, ZonedDateTime, attached_offset, fields_instant, zoned_fields_error};

verus! {

/// The attribute names read from host objects in restricted mode.
#[derive(Debug, Clone, Copy, PartialEq, Eq, Structural)]
pub enum AttrName {
    Year,
    Month,
    Day,
    Hour,
    Minute,
    Second,
    Microsecond,
    Days,
    Seconds,
    Microseconds,
}

/// An integer attribute of a host object.
#[derive(Debug, Clone, Copy, PartialEq, Eq, Structural)]
pub struct DynAttr {
    pub name: AttrName,
    pub value: i64,
}

/// A host object seen only through dynamic lookup: the handle of its
/// runtime type and the integer attributes it answers.
#[derive(Debug)]
pub struct DynObject {
    pub type_handle: u64,
    pub attrs: Vec<DynAttr>,
}

/// The value of the first attribute called `name`, if any.
pub open spec fn first_attr(attrs: Seq<DynAttr>, name: AttrName) -> Option<i64>
    decreases attrs.len(),
{
    if attrs.len() == 0 {
        None
    } else if attrs[0].name == name {
        Some(attrs[0].value)
    } else {
        first_attr(attrs.drop_first(), name)
    }
}

/// Looks up attribute `name` of `ob`.
pub fn get_attr(ob: &DynObject, name: AttrName) -> (r: Option<i64>)
    ensures
        r == first_attr(ob.attrs@, name),
{
    let n = ob.attrs.len();
    let mut i: usize = 0;
    assert(ob.attrs@.subrange(0, n as int) =~= ob.attrs@);
    while i < n
        invariant
            n == ob.attrs@.len(),
            0 <= i <= n,
            first_attr(ob.attrs@, name) == first_attr(ob.attrs@.subrange(i as int, n as int), name),
        decreases n - i,
    {
        let a = ob.attrs[i];
        assert(ob.attrs@.subrange(i as int, n as int).drop_first() =~= ob.attrs@.subrange(
            i as int + 1,
            n as int,
        ));
        if a.name == name {
            return Some(a.value);
        }
        i = i + 1;
    }
    None
}

/// `ob` has the type handle cached for `kind`.
pub open spec fn has_cached_type(ob: DynObject, cache: TypeCache, kind: TemporalKind) -> bool {
    cache.handle(kind) == Some(ob.type_handle)
}

/// Whether `ob` is of `kind` by the cached type handles: a date-time counts
/// as a date; an unresolved kind, or an object of another type, is a
/// `TypeMismatch`.
pub open spec fn type_check_error(ob: DynObject, cache: TypeCache, kind: TemporalKind) -> Option<
    ConversionError,
> {
    if has_cached_type(ob, cache, kind) || (kind == TemporalKind::Date && has_cached_type(
        ob,
        cache,
        TemporalKind::DateTime,
    )) {
        None
    } else {
        Some(ConversionError::TypeMismatch(kind))
    }
}

fn is_cached_type(ob: &DynObject, cache: &TypeCache, kind: TemporalKind) -> (r: bool)
    ensures
        r == has_cached_type(*ob, *cache, kind),
{
    match cache.get(kind) {
        Some(h) => h == ob.type_handle,
        None => false,
    }
}

/// Checks `ob` against the type handles cached for `kind`.
pub fn check_type(ob: &DynObject, cache: &TypeCache, kind: TemporalKind) -> (r: Result<
    (),
    ConversionError,
>)
    ensures
        r is Err <==> type_check_error(*ob, *cache, kind) is Some,
        r matches Err(e) ==> type_check_error(*ob, *cache, kind) == Some(e),
{
    if is_cached_type(ob, cache, kind) {
        return Ok(());
    }
    if kind == TemporalKind::Date && is_cached_type(ob, cache, TemporalKind::DateTime) {
        return Ok(());
    }
    Err(ConversionError::TypeMismatch(kind))
}

/// Reading attribute `name` of an object of `kind` as an integer in
/// `lo..=hi`: a missing attribute is a `TypeMismatch`, a value outside the
/// range a `FieldExtractionFailure` of `field`.
pub open spec fn read_int_spec(
    ob: DynObject,
    name: AttrName,
    kind: TemporalKind,
    field: Field,
    lo: int,
    hi: int,
) -> Result<i64, ConversionError> {
    match first_attr(ob.attrs@, name) {
        None => Err(ConversionError::TypeMismatch(kind)),
        Some(v) => if lo <= v <= hi {
            Ok(v)
        } else {
            Err(ConversionError::FieldExtractionFailure(field))
        },
    }
}

fn read_int(
    ob: &DynObject,
    name: AttrName,
    kind: TemporalKind,
    field: Field,
    lo: i64,
    hi: i64,
) -> (r: Result<i64, ConversionError>)
    ensures
        r == read_int_spec(*ob, name, kind, field, lo as int, hi as int),
{
    match get_attr(ob, name) {
        None => Err(ConversionError::TypeMismatch(kind)),
        Some(v) => if lo <= v && v <= hi {
            Ok(v)
        } else {
            Err(ConversionError::FieldExtractionFailure(field))
        },
    }
}

/// The date fields read from `ob` in restricted mode.
pub open spec fn dyn_date_spec(ob: DynObject, cache: TypeCache, kind: TemporalKind) -> Result<
    HostDate,
    ConversionError,
> {
    if type_check_error(ob, cache, kind) is Some {
        Err(type_check_error(ob, cache, kind)->Some_0)
    } else {
        match read_int_spec(ob, AttrName::Year, kind, Field::Year, i32::MIN as int, i32::MAX as int) {
            Err(e) => Err(e),
            Ok(year) => match read_int_spec(ob, AttrName::Month, kind, Field::Month, 0, 255) {
                Err(e) => Err(e),
                Ok(month) => match read_int_spec(ob, AttrName::Day, kind, Field::Day, 0, 255) {
                    Err(e) => Err(e),
                    Ok(day) => Ok(HostDate { year: year as i32, month: month as u8, day: day as u8 }),
                },
            },
        }
    }
}

fn dyn_date(ob: &DynObject, cache: &TypeCache, kind: TemporalKind) -> (r: Result<
    HostDate,
    ConversionError,
>)
    ensures
        r == dyn_date_spec(*ob, *cache, kind),
{
    check_type(ob, cache, kind)?;
    let year = read_int(ob, AttrName::Year, kind, Field::Year, i32::MIN as i64, i32::MAX as i64)?;
    let month = read_int(ob, AttrName::Month, kind, Field::Month, 0, 255)?;
    let day = read_int(ob, AttrName::Day, kind, Field::Day, 0, 255)?;
    Ok(HostDate { year: year as i32, month: month as u8, day: day as u8 })
}

/// Reads the date fields of a host date object in restricted mode.
pub fn extract_date_dyn(ob: &DynObject, cache: &TypeCache) -> (r: Result<HostDate, ConversionError>)
    ensures
        r == dyn_date_spec(*ob, *cache, TemporalKind::Date),
{
    dyn_date(ob, cache, TemporalKind::Date)
}

/// The clock fields of a host date-time read in restricted mode.
pub open spec fn dyn_time_spec(ob: DynObject) -> Result<HostTime, ConversionError> {
    let k = TemporalKind::DateTime;
    match read_int_spec(ob, AttrName::Hour, k, Field::Hour, 0, 255) {
        Err(e) => Err(e),
        Ok(hour) => match read_int_spec(ob, AttrName::Minute, k, Field::Minute, 0, 255) {
            Err(e) => Err(e),
            Ok(minute) => match read_int_spec(ob, AttrName::Second, k, Field::Second, 0, 255) {
                Err(e) => Err(e),
                Ok(second) => match read_int_spec(
                    ob,
                    AttrName::Microsecond,
                    k,
                    Field::Microsecond,
                    0,
                    u32::MAX as int,
                ) {
                    Err(e) => Err(e),
                    Ok(us) => Ok(
                        HostTime {
                            hour: hour as u8,
                            minute: minute as u8,
                            second: second as u8,
                            microsecond: us as u32,
                        },
                    ),
                },
            },
        },
    }
}

/// The fields of a host date-time read in restricted mode; no zone is read.
pub open spec fn dyn_datetime_spec(ob: DynObject, cache: TypeCache) -> Result<
    HostDateTime,
    ConversionError,
> {
    match dyn_date_spec(ob, cache, TemporalKind::DateTime) {
        Err(e) => Err(e),
        Ok(date) => match dyn_time_spec(ob) {
            Err(e) => Err(e),
            Ok(time) => Ok(HostDateTime { date, time, tzinfo: None }),
        },
    }
}

/// Reads the fields of a host date-time object in restricted mode.
pub fn extract_datetime_dyn(ob: &DynObject, cache: &TypeCache) -> (r: Result<
    HostDateTime,
    ConversionError,
>)
    ensures
        r == dyn_datetime_spec(*ob, *cache),
{
    let k = TemporalKind::DateTime;
    let date = dyn_date(ob, cache, k)?;
    let hour = read_int(ob, AttrName::Hour, k, Field::Hour, 0, 255)?;
    let minute = read_int(ob, AttrName::Minute, k, Field::Minute, 0, 255)?;
    let second = read_int(ob, AttrName::Second, k, Field::Second, 0, 255)?;
    let us = read_int(ob, AttrName::Microsecond, k, Field::Microsecond, 0, u32::MAX as i64)?;
    let time = HostTime {
        hour: hour as u8,
        minute: minute as u8,
        second: second as u8,
        microsecond: us as u32,
    };
    Ok(HostDateTime { date, time, tzinfo: None })
}

/// The fields of a host time span read in restricted mode.
pub open spec fn dyn_delta_spec(ob: DynObject, cache: TypeCache) -> Result<HostDelta, ConversionError> {
    let k = TemporalKind::Delta;
    let lo = i32::MIN as int;
    let hi = i32::MAX as int;
    if type_check_error(ob, cache, k) is Some {
        Err(type_check_error(ob, cache, k)->Some_0)
    } else {
        match read_int_spec(ob, AttrName::Days, k, Field::Offset, lo, hi) {
            Err(e) => Err(e),
            Ok(days) => match read_int_spec(ob, AttrName::Seconds, k, Field::Offset, lo, hi) {
                Err(e) => Err(e),
                Ok(seconds) => match read_int_spec(ob, AttrName::Microseconds, k, Field::Offset, lo, hi) {
                    Err(e) => Err(e),
                    Ok(us) => Ok(
                        HostDelta { days: days as i32, seconds: seconds as i32, microseconds: us as i32 },
                    ),
                },
            },
        }
    }
}

/// Reads the fields of a host time-span object in restricted mode.
pub fn extract_delta_dyn(ob: &DynObject, cache: &TypeCache) -> (r: Result<HostDelta, ConversionError>)
    ensures
        r == dyn_delta_spec(*ob, *cache),
{
    let k = TemporalKind::Delta;
    check_type(ob, cache, k)?;
    let days = read_int(ob, AttrName::Days, k, Field::Offset, i32::MIN as i64, i32::MAX as i64)?;
    let seconds = read_int(ob, AttrName::Seconds, k, Field::Offset, i32::MIN as i64, i32::MAX as i64)?;
    let us = read_int(ob, AttrName::Microseconds, k, Field::Offset, i32::MIN as i64, i32::MAX as i64)?;
    Ok(HostDelta { days: days as i32, seconds: seconds as i32, microseconds: us as i32 })
}

/// Converts a host date object to a civil date in restricted mode.
pub fn date_from_dyn(ob: &DynObject, cache: &TypeCache) -> (r: Result<CivilDate, ConversionError>)
    ensures
        dyn_date_spec(*ob, *cache, TemporalKind::Date) matches Err(e) ==> r == Err::<
            CivilDate,
            ConversionError,
        >(e),
        dyn_date_spec(*ob, *cache, TemporalKind::Date) matches Ok(f) ==> {
            &&& r is Err <==> date_fields_error(f) is Some
            &&& r matches Err(e) ==> date_fields_error(f) == Some(e)
            &&& r matches Ok(d) ==> d.year() == f.year && d.month() == f.month && d.day() == f.day
        },
{
    let f = extract_date_dyn(ob, cache)?;
    CivilDate::from_fields(&f)
}

/// Converts a host date-time object to a civil date-time in restricted mode.
pub fn datetime_from_dyn(ob: &DynObject, cache: &TypeCache) -> (r: Result<
    CivilDateTime,
    ConversionError,
>)
    ensures
        dyn_datetime_spec(*ob, *cache) matches Err(e) ==> r == Err::<CivilDateTime, ConversionError>(
            e,
        ),
        dyn_datetime_spec(*ob, *cache) matches Ok(f) ==> {
            &&& r is Err <==> datetime_fields_error(f) is Some
            &&& r matches Err(e) ==> datetime_fields_error(f) == Some(e)
            &&& r matches Ok(dt) ==> dt.has_fields(f)
        },
{
    let f = extract_datetime_dyn(ob, cache)?;
    CivilDateTime::from_fields(&f)
}

/// The zone answer `answer` of a zone `tz` read in restricted mode: the
/// host timezone it stands for, or the first failure.
pub open spec fn dyn_tzinfo_spec(tz: DynObject, answer: Option<DynObject>, cache: TypeCache) -> Result<
    HostTzInfo,
    ConversionError,
> {
    if type_check_error(tz, cache, TemporalKind::TzInfo) is Some {
        Err(type_check_error(tz, cache, TemporalKind::TzInfo)->Some_0)
    } else {
        match answer {
            None => Err(ConversionError::MissingTimezone),
            Some(d) => match dyn_delta_spec(d, cache) {
                Err(e) => Err(e),
                Ok(delta) => Ok(HostTzInfo { utcoffset: Some(delta) }),
            },
        }
    }
}

/// The object a borrowed optional object refers to.
pub open spec fn opt_deref(o: Option<&DynObject>) -> Option<DynObject> {
    match o {
        Some(x) => Some(*x),
        None => None,
    }
}

/// Resolves the fixed offset of a host timezone object in restricted mode,
/// given what its naive-offset query answered: `MissingTimezone` where it
/// answered nothing.
pub fn offset_from_dyn(tz: &DynObject, answer: Option<&DynObject>, cache: &TypeCache) -> (r: Result<
    FixedOffset,
    ConversionError,
>)
    ensures
        dyn_tzinfo_spec(*tz, opt_deref(answer), *cache) matches Err(e) ==> r == Err::<
            FixedOffset,
            ConversionError,
        >(e),
        dyn_tzinfo_spec(*tz, opt_deref(answer), *cache) matches Ok(t) ==> {
            &&& r is Err <==> tzinfo_offset_error(t) is Some
            &&& r matches Err(e) ==> tzinfo_offset_error(t) == Some(e)
            &&& r matches Ok(o) ==> o.seconds() == delta_seconds(t.utcoffset->Some_0)
        },
{
    check_type(tz, cache, TemporalKind::TzInfo)?;
    match answer {
        None => Err(ConversionError::MissingTimezone),
        Some(d) => {
            let delta = extract_delta_dyn(d, cache)?;
            FixedOffset::from_tzinfo(&HostTzInfo { utcoffset: Some(delta) })
        },
    }
}

/// What a zoned date-time read in restricted mode is built from: the fields
/// of `ob` with the zone read from `tz` and its query `answer` attached, or
/// the first failure met while reading them. The zone's offset is checked
/// before the date-time is read.
pub open spec fn dyn_zoned_fields(
    ob: DynObject,
    tz: Option<DynObject>,
    answer: Option<DynObject>,
    cache: TypeCache,
) -> Result<HostDateTime, ConversionError> {
    if type_check_error(ob, cache, TemporalKind::DateTime) is Some {
        Err(type_check_error(ob, cache, TemporalKind::DateTime)->Some_0)
    } else {
        match tz {
            None => Err(ConversionError::MissingTimezone),
            Some(tz) => match dyn_tzinfo_spec(tz, answer, cache) {
                Err(e) => Err(e),
                Ok(t) => if tzinfo_offset_error(t) is Some {
                    Err(tzinfo_offset_error(t)->Some_0)
                } else {
                    match dyn_datetime_spec(ob, cache) {
                        Err(e) => Err(e),
                        Ok(f) => Ok(HostDateTime { tzinfo: Some(t), ..f }),
                    }
                },
            },
        }
    }
}

/// Converts a host date-time object with an attached fixed-offset zone in
/// restricted mode: the offset is resolved first, then the date-time is
/// read, then the two are combined as in rich mode.
pub fn zoned_from_dyn(
    ob: &DynObject,
    tz: Option<&DynObject>,
    answer: Option<&DynObject>,
    cache: &TypeCache,
) -> (r: Result<ZonedDateTime, ConversionError>)
    ensures
        dyn_zoned_fields(*ob, opt_deref(tz), opt_deref(answer), *cache) matches Err(e) ==> r
            == Err::<ZonedDateTime, ConversionError>(e),
        dyn_zoned_fields(*ob, opt_deref(tz), opt_deref(answer), *cache) matches Ok(f) ==> {
            &&& r is Err <==> zoned_fields_error(f) is Some
            &&& r matches Err(e) ==> zoned_fields_error(f) == Some(e)
            &&& r matches Ok(z) ==> {
                &&& z.datetime().has_fields(f)
                &&& z.offset().seconds() == attached_offset(f)
                &&& fields_instant(f) == Some((z.timestamp().second, z.timestamp().nanosecond))
            }
        },
{
    check_type(ob, cache, TemporalKind::DateTime)?;
    let tz = match tz {
        None => return Err(ConversionError::MissingTimezone),
        Some(tz) => tz,
    };
    let offset = offset_from_dyn(tz, answer, cache)?;
    let datetime = datetime_from_dyn(ob, cache)?;
    ZonedDateTime::new(datetime, offset)
}

/// Converts a host date-time object with an attached fixed-offset zone to
/// the instant it names, in restricted mode.
pub fn instant_from_dyn(
    ob: &DynObject,
    tz: Option<&DynObject>,
    answer: Option<&DynObject>,
    cache: &TypeCache,
) -> (r: Result<Instant, ConversionError>)
    ensures
        dyn_zoned_fields(*ob, opt_deref(tz), opt_deref(answer), *cache) matches Err(e) ==> r
            == Err::<Instant, ConversionError>(e),
        dyn_zoned_fields(*ob, opt_deref(tz), opt_deref(answer), *cache) matches Ok(f) ==> {
            &&& r is Err <==> zoned_fields_error(f) is Some
            &&& r matches Err(e) ==> zoned_fields_error(f) == Some(e)
            &&& r matches Ok(i) ==> fields_instant(f) == Some((i.second, i.nanosecond))
        },
{
    let z = zoned_from_dyn(ob, tz, answer, cache)?;
    Ok(z.timestamp())
}

} // verus!
