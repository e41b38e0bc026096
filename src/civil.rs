use vstd::prelude::*;
use crate::calendar::{MIN_YEAR, supported_date, time_valid};
use crate::error::{ConversionError, Field, TemporalKind};
use crate::host::{HostDate, HostDateTime, HostTime, HostObject, extract_date, extract_datetime, date_of};
use crate::jiff_calls::{jiff_accepts_date, jiff_accepts_datetime};

verus! {

/// A calendar-valid date in [0001-01-01, 9999-12-31].
#[derive(Debug, Clone, Copy, PartialEq, Eq, Structural)]
pub struct CivilDate {
    year: i16,
    month: i8,
    day: i8,
}

/// The first narrowing failure of host date fields: the year must fit 16
/// bits, month and day 8 signed bits.
pub open spec fn date_narrow_error(f: HostDate) -> Option<ConversionError> {
    if !(i16::MIN <= f.year <= i16::MAX) {
        Some(ConversionError::FieldExtractionFailure(Field::Year))
    } else if f.month > i8::MAX {
        Some(ConversionError::FieldExtractionFailure(Field::Month))
    } else if f.day > i8::MAX {
        Some(ConversionError::FieldExtractionFailure(Field::Day))
    } else {
        None
    }
}

/// The first failure met when host date fields are read into a civil date:
/// a narrowing failure, else `CalendarOverflow` unless the fields form a
/// supported date.
pub open spec fn date_fields_error(f: HostDate) -> Option<ConversionError> {
    if date_narrow_error(f) is Some {
        date_narrow_error(f)
    } else if !supported_date(f.year as int, f.month as int, f.day as int) {
        Some(ConversionError::CalendarOverflow)
    } else {
        None
    }
}

/// Narrows host date fields to the widths of a civil date.
fn narrow_date(f: &HostDate) -> (r: Result<(i16, i8, i8), ConversionError>)
    ensures
        r is Err <==> date_narrow_error(*f) is Some,
        r matches Err(e) ==> date_narrow_error(*f) == Some(e),
        r matches Ok(t) ==> t.0 == f.year && t.1 == f.month && t.2 == f.day,
{
    if f.year < i16::MIN as i32 || f.year > i16::MAX as i32 {
        return Err(ConversionError::FieldExtractionFailure(Field::Year));
    }
    if f.month > i8::MAX as u8 {
        return Err(ConversionError::FieldExtractionFailure(Field::Month));
    }
    if f.day > i8::MAX as u8 {
        return Err(ConversionError::FieldExtractionFailure(Field::Day));
    }
    Ok((f.year as i16, f.month as i8, f.day as i8))
}

impl CivilDate {
    #[verifier::type_invariant]
    spec fn inv(&self) -> bool {
        supported_date(self.year as int, self.month as int, self.day as int)
    }

    /// The date is a supported calendar date; every date built by this
    /// library is.
    pub open spec fn is_valid(&self) -> bool {
        supported_date(self.year() as int, self.month() as int, self.day() as int)
    }

    pub closed spec fn spec_year(&self) -> i16 {
        self.year
    }

    pub closed spec fn spec_month(&self) -> i8 {
        self.month
    }

    pub closed spec fn spec_day(&self) -> i8 {
        self.day
    }

    #[verifier::when_used_as_spec(spec_year)]
    pub fn year(&self) -> (r: i16)
        ensures
            r == self.spec_year(),
            self.is_valid(),
    {
        proof {
            use_type_invariant(self);
        }
        self.year
    }

    #[verifier::when_used_as_spec(spec_month)]
    pub fn month(&self) -> (r: i8)
        ensures
            r == self.spec_month(),
    {
        self.month
    }

    #[verifier::when_used_as_spec(spec_day)]
    pub fn day(&self) -> (r: i8)
        ensures
            r == self.spec_day(),
    {
        self.day
    }

    /// Builds a date from its fields; fails with `CalendarOverflow` unless
    /// they form a date in [0001-01-01, 9999-12-31].
    pub fn new(year: i16, month: i8, day: i8) -> (r: Result<CivilDate, ConversionError>)
        ensures
            r is Ok <==> supported_date(year as int, month as int, day as int),
            r matches Ok(d) ==> d.year() == year && d.month() == month && d.day() == day,
            r matches Err(e) ==> e == ConversionError::CalendarOverflow,
    {
        if year < MIN_YEAR || !jiff_accepts_date(year, month, day) {
            Err(ConversionError::CalendarOverflow)
        } else {
            Ok(CivilDate { year, month, day })
        }
    }

    /// Reads host date fields into a date, narrowing each field first.
    pub fn from_fields(f: &HostDate) -> (r: Result<CivilDate, ConversionError>)
        ensures
            r is Err <==> date_fields_error(*f) is Some,
            r matches Err(e) ==> date_fields_error(*f) == Some(e),
            r matches Ok(d) ==> d.year() == f.year && d.month() == f.month && d.day() == f.day,
    {
        let (year, month, day) = narrow_date(f)?;
        CivilDate::new(year, month, day)
    }

    /// The result of reading `ob` as a date.
    pub closed spec fn from_native_spec(ob: HostObject) -> Result<CivilDate, ConversionError> {
        match date_of(ob) {
            None => Err(ConversionError::TypeMismatch(TemporalKind::Date)),
            Some(f) => match date_fields_error(f) {
                Some(e) => Err(e),
                None => Ok(CivilDate { year: f.year as i16, month: f.month as i8, day: f.day as i8 }),
            },
        }
    }

    /// The host date object for this date.
    pub open spec fn to_native_spec(self) -> HostObject {
        HostObject::Date(
            HostDate { year: self.year() as i32, month: self.month() as u8, day: self.day() as u8 },
        )
    }

    /// Converts a host date object (a date-time counts as one) to a date.
    pub fn from_native(ob: &HostObject) -> (r: Result<CivilDate, ConversionError>)
        ensures
            r == CivilDate::from_native_spec(*ob),
            date_of(*ob) is None ==> r == Err::<CivilDate, ConversionError>(
                ConversionError::TypeMismatch(TemporalKind::Date),
            ),
            date_of(*ob) matches Some(f) ==> {
                &&& r is Err <==> date_fields_error(f) is Some
                &&& r matches Err(e) ==> date_fields_error(f) == Some(e)
                &&& r matches Ok(d) ==> d.year() == f.year && d.month() == f.month && d.day()
                    == f.day
            },
    {
        let f = extract_date(ob)?;
        let r = CivilDate::from_fields(&f);
        proof {
            if let Ok(d) = r {
                use_type_invariant(d);
            }
        }
        r
    }

    /// The host fields of this date.
    pub fn to_fields(&self) -> (r: HostDate)
        ensures
            r.year == self.year(),
            r.month == self.month(),
            r.day == self.day(),
    {
        proof {
            use_type_invariant(self);
        }
        HostDate { year: self.year as i32, month: self.month as u8, day: self.day as u8 }
    }

    /// Builds the host date object for this date.
    pub fn to_native(&self) -> (r: HostObject)
        ensures
            r == self.to_native_spec(),
    {
        HostObject::Date(self.to_fields())
    }
}

/// Converting a date in [0001-01-01, 9999-12-31] to a host object and back
/// gives the same date.
pub proof fn lemma_date_round_trip(d: CivilDate)
    requires
        d.is_valid(),
    ensures
        CivilDate::from_native_spec(d.to_native_spec()) == Ok::<CivilDate, ConversionError>(d),
{
}

/// The largest host microsecond value whose nanosecond count fits 32 bits.
pub const MAX_SCALED_MICROSECOND: u32 = 2_147_483;

/// Sub-second scaling policy: host microseconds become nanoseconds by
/// multiplying by 1000; nanoseconds become host microseconds by dropping the
/// last three digits.
pub open spec fn micros_to_nanos(us: int) -> int {
    us * 1000
}

/// The first failure met when host date-time fields are read into a civil
/// date-time: a narrowing failure of the date, hour, minute, second or
/// microsecond fields in that order, else `CalendarOverflow` unless the
/// fields form a supported date and a valid time.
pub open spec fn datetime_fields_error(f: HostDateTime) -> Option<ConversionError> {
    if date_narrow_error(f.date) is Some {
        date_narrow_error(f.date)
    } else if f.time.hour > i8::MAX {
        Some(ConversionError::FieldExtractionFailure(Field::Hour))
    } else if f.time.minute > i8::MAX {
        Some(ConversionError::FieldExtractionFailure(Field::Minute))
    } else if f.time.second > i8::MAX {
        Some(ConversionError::FieldExtractionFailure(Field::Second))
    } else if f.time.microsecond > MAX_SCALED_MICROSECOND {
        Some(ConversionError::FieldExtractionFailure(Field::Microsecond))
    } else if !(supported_date(f.date.year as int, f.date.month as int, f.date.day as int)
        && time_valid(
        f.time.hour as int,
        f.time.minute as int,
        f.time.second as int,
        micros_to_nanos(f.time.microsecond as int),
    )) {
        Some(ConversionError::CalendarOverflow)
    } else {
        None
    }
}

/// A civil date in [0001-01-01, 9999-12-31] with a valid time of day at
/// nanosecond precision.
#[derive(Debug, Clone, Copy, PartialEq, Eq, Structural)]
pub struct CivilDateTime {
    date: CivilDate,
    hour: i8,
    minute: i8,
    second: i8,
    subsec_nanosecond: i32,
}

impl CivilDateTime {
    #[verifier::type_invariant]
    spec fn inv(&self) -> bool {
        &&& supported_date(self.date.year as int, self.date.month as int, self.date.day as int)
        &&& time_valid(
            self.hour as int,
            self.minute as int,
            self.second as int,
            self.subsec_nanosecond as int,
        )
    }

    /// The fields form a supported date and a valid time; every date-time
    /// built by this library does.
    pub open spec fn is_valid(&self) -> bool {
        &&& self.date().is_valid()
        &&& time_valid(
            self.hour() as int,
            self.minute() as int,
            self.second() as int,
            self.subsec_nanosecond() as int,
        )
    }

    pub closed spec fn spec_date(&self) -> CivilDate {
        self.date
    }

    pub closed spec fn spec_hour(&self) -> i8 {
        self.hour
    }

    pub closed spec fn spec_minute(&self) -> i8 {
        self.minute
    }

    pub closed spec fn spec_second(&self) -> i8 {
        self.second
    }

    pub closed spec fn spec_subsec_nanosecond(&self) -> i32 {
        self.subsec_nanosecond
    }

    /// This value carries the date and clock fields `f` of a host date-time,
    /// microseconds scaled to nanoseconds.
    pub open spec fn has_fields(self, f: HostDateTime) -> bool {
        &&& self.date().year() == f.date.year && self.date().month() == f.date.month
        &&& self.date().day() == f.date.day
        &&& self.hour() == f.time.hour && self.minute() == f.time.minute
        &&& self.second() == f.time.second
        &&& self.subsec_nanosecond() == micros_to_nanos(f.time.microsecond as int)
    }

    #[verifier::when_used_as_spec(spec_date)]
    pub fn date(&self) -> (r: CivilDate)
        ensures
            r == self.spec_date(),
            self.is_valid(),
    {
        proof {
            use_type_invariant(self);
        }
        self.date
    }

    #[verifier::when_used_as_spec(spec_hour)]
    pub fn hour(&self) -> (r: i8)
        ensures
            r == self.spec_hour(),
    {
        self.hour
    }

    #[verifier::when_used_as_spec(spec_minute)]
    pub fn minute(&self) -> (r: i8)
        ensures
            r == self.spec_minute(),
    {
        self.minute
    }

    #[verifier::when_used_as_spec(spec_second)]
    pub fn second(&self) -> (r: i8)
        ensures
            r == self.spec_second(),
    {
        self.second
    }

    #[verifier::when_used_as_spec(spec_subsec_nanosecond)]
    pub fn subsec_nanosecond(&self) -> (r: i32)
        ensures
            r == self.spec_subsec_nanosecond(),
    {
        self.subsec_nanosecond
    }

    /// Builds a date-time from its fields; fails with `CalendarOverflow`
    /// unless they form a supported date and a valid time.
    pub fn new(
        year: i16,
        month: i8,
        day: i8,
        hour: i8,
        minute: i8,
        second: i8,
        subsec_nanosecond: i32,
    ) -> (r: Result<CivilDateTime, ConversionError>)
        ensures
            r is Ok <==> supported_date(year as int, month as int, day as int) && time_valid(
                hour as int,
                minute as int,
                second as int,
                subsec_nanosecond as int,
            ),
            r matches Ok(dt) ==> {
                &&& dt.date().year() == year && dt.date().month() == month && dt.date().day() == day
                &&& dt.hour() == hour && dt.minute() == minute && dt.second() == second
                &&& dt.subsec_nanosecond() == subsec_nanosecond
            },
            r matches Err(e) ==> e == ConversionError::CalendarOverflow,
    {
        if year < MIN_YEAR || !jiff_accepts_datetime(
            year,
            month,
            day,
            hour,
            minute,
            second,
            subsec_nanosecond,
        ) {
            Err(ConversionError::CalendarOverflow)
        } else {
            let date = CivilDate { year, month, day };
            Ok(CivilDateTime { date, hour, minute, second, subsec_nanosecond })
        }
    }

    /// The result of reading the fields `f` of a host date-time.
    pub closed spec fn from_fields_spec(f: HostDateTime) -> Result<CivilDateTime, ConversionError> {
        match datetime_fields_error(f) {
            Some(e) => Err(e),
            None => Ok(
                CivilDateTime {
                    date: CivilDate {
                        year: f.date.year as i16,
                        month: f.date.month as i8,
                        day: f.date.day as i8,
                    },
                    hour: f.time.hour as i8,
                    minute: f.time.minute as i8,
                    second: f.time.second as i8,
                    subsec_nanosecond: micros_to_nanos(f.time.microsecond as int) as i32,
                },
            ),
        }
    }

    /// Reads host date-time fields (the zone aside) into a civil date-time,
    /// narrowing each field and scaling microseconds to nanoseconds.
    pub fn from_fields(f: &HostDateTime) -> (r: Result<CivilDateTime, ConversionError>)
        ensures
            r == CivilDateTime::from_fields_spec(*f),
            r is Err <==> datetime_fields_error(*f) is Some,
            r matches Err(e) ==> datetime_fields_error(*f) == Some(e),
            r matches Ok(dt) ==> dt.has_fields(*f),
    {
        let (year, month, day) = narrow_date(&f.date)?;
        if f.time.hour > i8::MAX as u8 {
            return Err(ConversionError::FieldExtractionFailure(Field::Hour));
        }
        if f.time.minute > i8::MAX as u8 {
            return Err(ConversionError::FieldExtractionFailure(Field::Minute));
        }
        if f.time.second > i8::MAX as u8 {
            return Err(ConversionError::FieldExtractionFailure(Field::Second));
        }
        if f.time.microsecond > MAX_SCALED_MICROSECOND {
            return Err(ConversionError::FieldExtractionFailure(Field::Microsecond));
        }
        let nanos = (f.time.microsecond * 1000) as i32;
        let r = CivilDateTime::new(
            year,
            month,
            day,
            f.time.hour as i8,
            f.time.minute as i8,
            f.time.second as i8,
            nanos,
        );
        proof {
            if let Ok(dt) = r {
                use_type_invariant(dt);
            }
        }
        r
    }

    /// The result of reading `ob` as a date-time, its zone aside.
    pub open spec fn from_native_spec(ob: HostObject) -> Result<CivilDateTime, ConversionError> {
        match ob {
            HostObject::DateTime(f) => CivilDateTime::from_fields_spec(f),
            _ => Err(ConversionError::TypeMismatch(TemporalKind::DateTime)),
        }
    }

    /// Converts a host date-time object to a civil date-time; any attached
    /// zone is ignored.
    pub fn from_native(ob: &HostObject) -> (r: Result<CivilDateTime, ConversionError>)
        ensures
            r == CivilDateTime::from_native_spec(*ob),
            !(*ob is DateTime) ==> r == Err::<CivilDateTime, ConversionError>(
                ConversionError::TypeMismatch(TemporalKind::DateTime),
            ),
            *ob matches HostObject::DateTime(f) ==> {
                &&& r is Err <==> datetime_fields_error(f) is Some
                &&& r matches Err(e) ==> datetime_fields_error(f) == Some(e)
                &&& r matches Ok(dt) ==> dt.has_fields(f)
            },
    {
        let f = extract_datetime(ob)?;
        CivilDateTime::from_fields(&f)
    }

    /// The host date-time object for this value, with no zone attached;
    /// nanoseconds are truncated to microseconds.
    pub open spec fn to_native_spec(self) -> HostObject {
        HostObject::DateTime(
            HostDateTime {
                date: HostDate {
                    year: self.date().year() as i32,
                    month: self.date().month() as u8,
                    day: self.date().day() as u8,
                },
                time: HostTime {
                    hour: self.hour() as u8,
                    minute: self.minute() as u8,
                    second: self.second() as u8,
                    microsecond: (self.subsec_nanosecond() / 1000) as u32,
                },
                tzinfo: None,
            },
        )
    }

    /// Builds the host date-time object for this value, with no zone.
    pub fn to_native(&self) -> (r: HostObject)
        ensures
            r == self.to_native_spec(),
    {
        proof {
            use_type_invariant(self);
        }
        let time = HostTime {
            hour: self.hour as u8,
            minute: self.minute as u8,
            second: self.second as u8,
            microsecond: (self.subsec_nanosecond / 1000) as u32,
        };
        HostObject::DateTime(HostDateTime { date: self.date.to_fields(), time, tzinfo: None })
    }
}

/// Converting a date-time to a host object and back keeps the date and the
/// time of day, with the nanoseconds truncated to whole microseconds; where
/// they are whole microseconds, the same date-time comes back.
pub proof fn lemma_datetime_round_trip(dt: CivilDateTime)
    requires
        dt.is_valid(),
    ensures
        CivilDateTime::from_native_spec(dt.to_native_spec()) matches Ok(back) && {
            &&& back.date() == dt.date()
            &&& back.hour() == dt.hour() && back.minute() == dt.minute()
            &&& back.second() == dt.second()
            &&& back.subsec_nanosecond() == dt.subsec_nanosecond() / 1000 * 1000
        },
        dt.subsec_nanosecond() % 1000 == 0 ==> CivilDateTime::from_native_spec(dt.to_native_spec())
            == Ok::<CivilDateTime, ConversionError>(dt),
{
    assert(dt.subsec_nanosecond() / 1000 * 1000 <= dt.subsec_nanosecond());
    assert(dt.subsec_nanosecond() / 1000 <= MAX_SCALED_MICROSECOND);
}

} // verus!
