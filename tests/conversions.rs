use jiff_bridge::cache::TypeCache;
use jiff_bridge::civil::{CivilDate, CivilDateTime};
use jiff_bridge::error::{ConversionError, Field, TemporalKind};
use jiff_bridge::host::{HostDate, HostDateTime, HostDelta, HostObject, HostTime, HostTzInfo};
use jiff_bridge::offset::FixedOffset;
use jiff_bridge::restricted::{
    date_from_dyn, datetime_from_dyn, instant_from_dyn, offset_from_dyn, zoned_from_dyn, AttrName, DynAttr, DynObject,
};
use jiff_bridge::zoned::{Instant, ZonedDateTime};

fn host_date(year: i32, month: u8, day: u8) -> HostObject {
    HostObject::Date(HostDate { year, month, day })
}

fn host_datetime(
    ymd: (i32, u8, u8),
    hms: (u8, u8, u8),
    microsecond: u32,
    utcoffset: Option<Option<HostDelta>>,
) -> HostObject {
    HostObject::DateTime(HostDateTime {
        date: HostDate { year: ymd.0, month: ymd.1, day: ymd.2 },
        time: HostTime { hour: hms.0, minute: hms.1, second: hms.2, microsecond },
        tzinfo: utcoffset.map(|o| HostTzInfo { utcoffset: o }),
    })
}

fn offset_delta(seconds: i32) -> HostDelta {
    HostDelta { days: seconds.div_euclid(86400), seconds: seconds.rem_euclid(86400), microseconds: 0 }
}

#[test]
fn test_pyo3_date_topyobject() {
    let eq_ymd = |name: &'static str, year: i16, month: i8, day: i8| {
        let date = CivilDate::new(year, month, day).unwrap().to_native();
        let py_date = host_date(year as i32, month as u8, day as u8);
        assert_eq!(date, py_date, "{}: {:?} != {:?}", name, date, py_date);
    };

    eq_ymd("past date", 2012, 2, 29);
    eq_ymd("min date", 1, 1, 1);
    eq_ymd("future date", 3000, 6, 5);
    eq_ymd("max date", 9999, 12, 31);
}

#[test]
fn date_round_trips() {
    for (y, m, d) in [(1, 1, 1), (2012, 2, 29), (2000, 2, 29), (1999, 12, 31), (9999, 12, 31)] {
        let date = CivilDate::new(y, m, d).unwrap();
        assert_eq!(CivilDate::from_native(&date.to_native()), Ok(date));
    }
}

#[test]
fn february_thirtieth_is_calendar_overflow() {
    assert_eq!(CivilDate::new(2021, 2, 30), Err(ConversionError::CalendarOverflow));
    assert_eq!(CivilDate::from_native(&host_date(2021, 2, 30)), Err(ConversionError::CalendarOverflow));
}

#[test]
fn boundary_dates_convert_both_ways() {
    let min = CivilDate::from_native(&host_date(1, 1, 1)).unwrap();
    assert_eq!((min.year(), min.month(), min.day()), (1, 1, 1));
    assert_eq!(min.to_native(), host_date(1, 1, 1));
    let max = CivilDate::from_native(&host_date(9999, 12, 31)).unwrap();
    assert_eq!((max.year(), max.month(), max.day()), (9999, 12, 31));
    assert_eq!(max.to_native(), host_date(9999, 12, 31));
}

#[test]
fn years_outside_supported_range_fail() {
    assert_eq!(CivilDate::from_native(&host_date(0, 1, 1)), Err(ConversionError::CalendarOverflow));
    assert_eq!(CivilDate::from_native(&host_date(10000, 1, 1)), Err(ConversionError::CalendarOverflow));
    assert_eq!(CivilDate::new(-5, 1, 1), Err(ConversionError::CalendarOverflow));
}

#[test]
fn leap_day_rules() {
    let d = CivilDate::from_native(&host_date(2012, 2, 29)).unwrap();
    assert_eq!(CivilDate::from_native(&d.to_native()), Ok(d));
    assert_eq!(CivilDate::from_native(&host_date(2013, 2, 29)), Err(ConversionError::CalendarOverflow));
    assert_eq!(CivilDate::from_native(&host_date(1900, 2, 29)), Err(ConversionError::CalendarOverflow));
    assert!(CivilDate::from_native(&host_date(2000, 2, 29)).is_ok());
    assert_eq!(CivilDate::new(2023, 4, 31), Err(ConversionError::CalendarOverflow));
    assert_eq!(CivilDate::new(2023, 13, 1), Err(ConversionError::CalendarOverflow));
    assert_eq!(CivilDate::new(2023, 1, 0), Err(ConversionError::CalendarOverflow));
}

#[test]
fn date_narrowing_failures() {
    assert_eq!(
        CivilDate::from_native(&host_date(40000, 1, 1)),
        Err(ConversionError::FieldExtractionFailure(Field::Year))
    );
    assert_eq!(
        CivilDate::from_native(&host_date(2000, 200, 1)),
        Err(ConversionError::FieldExtractionFailure(Field::Month))
    );
    assert_eq!(
        CivilDate::from_native(&host_date(2000, 1, 128)),
        Err(ConversionError::FieldExtractionFailure(Field::Day))
    );
}

#[test]
fn date_type_mismatch_and_datetime_as_date() {
    assert_eq!(CivilDate::from_native(&HostObject::Other), Err(ConversionError::TypeMismatch(TemporalKind::Date)));
    assert_eq!(
        CivilDate::from_native(&HostObject::NoneValue),
        Err(ConversionError::TypeMismatch(TemporalKind::Date))
    );
    let dt = host_datetime((2024, 6, 20), (19, 58, 1), 5, None);
    assert_eq!(CivilDate::from_native(&dt), CivilDate::new(2024, 6, 20));
}

#[test]
fn datetime_round_trip_keeps_microseconds() {
    let dt = CivilDateTime::new(2024, 2, 29, 21, 30, 5, 123_456_000).unwrap();
    let native = dt.to_native();
    assert_eq!(native, host_datetime((2024, 2, 29), (21, 30, 5), 123_456, None));
    assert_eq!(CivilDateTime::from_native(&native), Ok(dt));
}

#[test]
fn datetime_round_trip_truncates_nanoseconds() {
    let dt = CivilDateTime::new(2024, 2, 29, 21, 30, 5, 123_456_789).unwrap();
    let back = CivilDateTime::from_native(&dt.to_native()).unwrap();
    assert_eq!(back.subsec_nanosecond(), 123_456_000);
    assert_eq!(back.date(), dt.date());
    assert_eq!((back.hour(), back.minute(), back.second()), (21, 30, 5));
}

#[test]
fn datetime_boundaries() {
    for dt in [
        CivilDateTime::new(1, 1, 1, 0, 0, 0, 0).unwrap(),
        CivilDateTime::new(9999, 12, 31, 23, 59, 59, 999_999_000).unwrap(),
    ] {
        assert_eq!(CivilDateTime::from_native(&dt.to_native()), Ok(dt));
    }
}

#[test]
fn datetime_microseconds_scale_to_nanoseconds() {
    let dt = CivilDateTime::from_native(&host_datetime((2020, 1, 2), (3, 4, 5), 999_999, None)).unwrap();
    assert_eq!(dt.subsec_nanosecond(), 999_999_000);
}

#[test]
fn datetime_errors() {
    assert_eq!(
        CivilDateTime::from_native(&host_date(2020, 1, 1)),
        Err(ConversionError::TypeMismatch(TemporalKind::DateTime))
    );
    assert_eq!(
        CivilDateTime::from_native(&host_datetime((2020, 1, 1), (24, 0, 0), 0, None)),
        Err(ConversionError::CalendarOverflow)
    );
    assert_eq!(
        CivilDateTime::from_native(&host_datetime((2020, 1, 1), (200, 0, 0), 0, None)),
        Err(ConversionError::FieldExtractionFailure(Field::Hour))
    );
    assert_eq!(
        CivilDateTime::from_native(&host_datetime((2020, 1, 1), (0, 130, 0), 0, None)),
        Err(ConversionError::FieldExtractionFailure(Field::Minute))
    );
    assert_eq!(
        CivilDateTime::from_native(&host_datetime((2020, 1, 1), (0, 0, 60), 0, None)),
        Err(ConversionError::CalendarOverflow)
    );
    assert_eq!(
        CivilDateTime::from_native(&host_datetime((2020, 1, 1), (0, 0, 0), 3_000_000, None)),
        Err(ConversionError::FieldExtractionFailure(Field::Microsecond))
    );
    assert_eq!(
        CivilDateTime::from_native(&host_datetime((2020, 1, 1), (0, 0, 0), 1_000_000, None)),
        Err(ConversionError::CalendarOverflow)
    );
    assert_eq!(
        CivilDateTime::from_native(&host_datetime((2021, 2, 30), (0, 0, 0), 0, None)),
        Err(ConversionError::CalendarOverflow)
    );
}

#[test]
fn missing_offset_is_missing_timezone() {
    let tz = HostObject::TzInfo(HostTzInfo { utcoffset: None });
    assert_eq!(FixedOffset::from_native(&tz), Err(ConversionError::MissingTimezone));
}

#[test]
fn offset_bound() {
    assert_eq!(FixedOffset::from_seconds(93599).unwrap().seconds(), 93599);
    assert_eq!(FixedOffset::from_seconds(-93599).unwrap().seconds(), -93599);
    assert_eq!(FixedOffset::from_seconds(93600), Err(ConversionError::OffsetOutOfRange));
    assert_eq!(FixedOffset::from_seconds(-93600), Err(ConversionError::OffsetOutOfRange));
    let at_max = HostObject::TzInfo(HostTzInfo { utcoffset: Some(offset_delta(93599)) });
    assert_eq!(FixedOffset::from_native(&at_max).unwrap().seconds(), 93599);
    let beyond = HostObject::TzInfo(HostTzInfo { utcoffset: Some(offset_delta(93600)) });
    assert_eq!(FixedOffset::from_native(&beyond), Err(ConversionError::OffsetOutOfRange));
}

#[test]
fn negative_offsets_use_days_and_seconds() {
    let minus_five = HostTzInfo { utcoffset: Some(HostDelta { days: -1, seconds: 68400, microseconds: 0 }) };
    assert_eq!(FixedOffset::from_tzinfo(&minus_five).unwrap().seconds(), -18000);
}

#[test]
fn offset_errors() {
    let sub_second = HostTzInfo { utcoffset: Some(HostDelta { days: 0, seconds: 3600, microseconds: 5 }) };
    assert_eq!(
        FixedOffset::from_tzinfo(&sub_second),
        Err(ConversionError::FieldExtractionFailure(Field::Offset))
    );
    let huge = HostDelta { days: i32::MAX, seconds: 0, microseconds: 0 };
    assert_eq!(FixedOffset::from_delta(&huge), Err(ConversionError::OffsetOutOfRange));
    assert_eq!(
        FixedOffset::from_native(&HostObject::Other),
        Err(ConversionError::TypeMismatch(TemporalKind::TzInfo))
    );
}

#[test]
fn zoned_from_native_gives_instant() {
    let ob = host_datetime((2000, 1, 1), (0, 0, 0), 0, Some(Some(offset_delta(3600))));
    let z = ZonedDateTime::from_native(&ob).unwrap();
    assert_eq!(z.offset().seconds(), 3600);
    assert_eq!(z.datetime(), CivilDateTime::new(2000, 1, 1, 0, 0, 0, 0).unwrap());
    assert_eq!(z.timestamp(), Instant { second: 946_681_200, nanosecond: 0 });
    assert_eq!(Instant::from_native(&ob), Ok(Instant { second: 946_681_200, nanosecond: 0 }));
}

#[test]
fn instant_at_epoch_with_microseconds() {
    let ob = host_datetime((1970, 1, 1), (0, 0, 1), 250_000, Some(Some(offset_delta(0))));
    assert_eq!(Instant::from_native(&ob), Ok(Instant { second: 1, nanosecond: 250_000_000 }));
    let before = host_datetime((1969, 12, 31), (23, 59, 59), 500_000, Some(Some(offset_delta(0))));
    assert_eq!(Instant::from_native(&before), Ok(Instant { second: 0, nanosecond: -500_000_000 }));
}

#[test]
fn zoned_errors() {
    let naive = host_datetime((2000, 1, 1), (0, 0, 0), 0, None);
    assert_eq!(ZonedDateTime::from_native(&naive), Err(ConversionError::MissingTimezone));
    let not_fixed = host_datetime((2000, 1, 1), (0, 0, 0), 0, Some(None));
    assert_eq!(ZonedDateTime::from_native(&not_fixed), Err(ConversionError::MissingTimezone));
    let bad_day = host_datetime((2021, 2, 30), (0, 0, 0), 0, Some(Some(offset_delta(0))));
    assert_eq!(ZonedDateTime::from_native(&bad_day), Err(ConversionError::CalendarOverflow));
    assert_eq!(
        ZonedDateTime::from_native(&host_date(2000, 1, 1)),
        Err(ConversionError::TypeMismatch(TemporalKind::DateTime))
    );
}

#[test]
fn zoned_instant_out_of_range_is_calendar_overflow() {
    let last_day = host_datetime((9999, 12, 31), (0, 0, 0), 0, Some(Some(offset_delta(0))));
    assert_eq!(ZonedDateTime::from_native(&last_day), Err(ConversionError::CalendarOverflow));
    let far_east = host_datetime((9999, 12, 31), (0, 0, 0), 0, Some(Some(offset_delta(93599))));
    assert_eq!(Instant::from_native(&far_east), Ok(Instant { second: 253_402_120_801, nanosecond: 0 }));
}

#[test]
fn zoned_new_and_from_parts() {
    let dt = CivilDateTime::new(2000, 1, 1, 0, 0, 0, 0).unwrap();
    let off = FixedOffset::from_seconds(0).unwrap();
    let z = ZonedDateTime::new(dt, off).unwrap();
    assert_eq!(z.timestamp(), Instant { second: 946_684_800, nanosecond: 0 });
    assert_eq!(ZonedDateTime::from_parts(dt, off, Some((946_684_800, 0))), Ok(z));
    assert_eq!(ZonedDateTime::from_parts(dt, off, None), Err(ConversionError::CalendarOverflow));
}

fn dyn_object(type_handle: u64, attrs: &[(AttrName, i64)]) -> DynObject {
    DynObject { type_handle, attrs: attrs.iter().map(|&(name, value)| DynAttr { name, value }).collect() }
}

fn warmed_cache() -> TypeCache {
    let mut cache = TypeCache::new();
    assert_eq!(cache.resolve(TemporalKind::Date, Some(10)), Ok(10));
    assert_eq!(cache.resolve(TemporalKind::DateTime, Some(11)), Ok(11));
    assert_eq!(cache.resolve(TemporalKind::Delta, Some(12)), Ok(12));
    assert_eq!(cache.resolve(TemporalKind::TzInfo, Some(13)), Ok(13));
    cache
}

#[test]
fn cache_resolves_once() {
    let mut cache = TypeCache::new();
    assert!(cache.needs_lookup(TemporalKind::Date));
    assert_eq!(cache.resolve(TemporalKind::Date, None), Err(ConversionError::TypeMismatch(TemporalKind::Date)));
    assert_eq!(cache.get(TemporalKind::Date), None);
    assert_eq!(cache.resolve(TemporalKind::Date, Some(7)), Ok(7));
    assert_eq!(cache.resolve(TemporalKind::Date, Some(8)), Ok(7));
    assert_eq!(cache.resolve(TemporalKind::Date, None), Ok(7));
    assert_eq!(cache.get(TemporalKind::Date), Some(7));
    assert!(!cache.needs_lookup(TemporalKind::Date));
    assert_eq!(cache.get(TemporalKind::DateTime), None);
}

#[test]
fn restricted_date_extraction() {
    let cache = warmed_cache();
    let ob = dyn_object(10, &[(AttrName::Year, 2012), (AttrName::Month, 2), (AttrName::Day, 29)]);
    assert_eq!(date_from_dyn(&ob, &cache), CivilDate::new(2012, 2, 29));
    let wrong_type = dyn_object(99, &[(AttrName::Year, 2012), (AttrName::Month, 2), (AttrName::Day, 29)]);
    assert_eq!(date_from_dyn(&wrong_type, &cache), Err(ConversionError::TypeMismatch(TemporalKind::Date)));
    let missing = dyn_object(10, &[(AttrName::Year, 2012), (AttrName::Month, 2)]);
    assert_eq!(date_from_dyn(&missing, &cache), Err(ConversionError::TypeMismatch(TemporalKind::Date)));
    let negative = dyn_object(10, &[(AttrName::Year, 2012), (AttrName::Month, -2), (AttrName::Day, 1)]);
    assert_eq!(date_from_dyn(&negative, &cache), Err(ConversionError::FieldExtractionFailure(Field::Month)));
    let leap = dyn_object(10, &[(AttrName::Year, 2013), (AttrName::Month, 2), (AttrName::Day, 29)]);
    assert_eq!(date_from_dyn(&leap, &cache), Err(ConversionError::CalendarOverflow));
    let unresolved = TypeCache::new();
    assert_eq!(date_from_dyn(&ob, &unresolved), Err(ConversionError::TypeMismatch(TemporalKind::Date)));
}

#[test]
fn restricted_datetime_counts_as_date() {
    let cache = warmed_cache();
    let dt = dyn_object(
        11,
        &[(AttrName::Year, 2024), (AttrName::Month, 6), (AttrName::Day, 20), (AttrName::Hour, 19)],
    );
    assert_eq!(date_from_dyn(&dt, &cache), CivilDate::new(2024, 6, 20));
    let delta_typed = dyn_object(12, &[(AttrName::Year, 2024), (AttrName::Month, 6), (AttrName::Day, 20)]);
    assert_eq!(date_from_dyn(&delta_typed, &cache), Err(ConversionError::TypeMismatch(TemporalKind::Date)));
}

#[test]
fn restricted_first_attribute_wins() {
    let cache = warmed_cache();
    let ob = dyn_object(
        10,
        &[(AttrName::Day, 3), (AttrName::Year, 2001), (AttrName::Month, 4), (AttrName::Day, 9)],
    );
    assert_eq!(date_from_dyn(&ob, &cache), CivilDate::new(2001, 4, 3));
}

#[test]
fn restricted_datetime_extraction() {
    let cache = warmed_cache();
    let ob = dyn_object(
        11,
        &[
            (AttrName::Year, 2024),
            (AttrName::Month, 6),
            (AttrName::Day, 20),
            (AttrName::Hour, 19),
            (AttrName::Minute, 58),
            (AttrName::Second, 7),
            (AttrName::Microsecond, 42),
        ],
    );
    assert_eq!(datetime_from_dyn(&ob, &cache), CivilDateTime::new(2024, 6, 20, 19, 58, 7, 42_000));
    let date_typed = dyn_object(10, &[(AttrName::Year, 2024)]);
    assert_eq!(
        datetime_from_dyn(&date_typed, &cache),
        Err(ConversionError::TypeMismatch(TemporalKind::DateTime))
    );
}

#[test]
fn restricted_offset_resolution() {
    let cache = warmed_cache();
    let tz = dyn_object(13, &[]);
    let delta = dyn_object(12, &[(AttrName::Days, -1), (AttrName::Seconds, 82800), (AttrName::Microseconds, 0)]);
    assert_eq!(offset_from_dyn(&tz, Some(&delta), &cache).unwrap().seconds(), -3600);
    assert_eq!(offset_from_dyn(&tz, None, &cache), Err(ConversionError::MissingTimezone));
    let not_tz = dyn_object(10, &[]);
    assert_eq!(
        offset_from_dyn(&not_tz, Some(&delta), &cache),
        Err(ConversionError::TypeMismatch(TemporalKind::TzInfo))
    );
    let far = dyn_object(12, &[(AttrName::Days, 1), (AttrName::Seconds, 7201), (AttrName::Microseconds, 0)]);
    assert_eq!(offset_from_dyn(&tz, Some(&far), &cache), Err(ConversionError::OffsetOutOfRange));
}

#[test]
fn error_messages_name_the_problem() {
    assert_eq!(ConversionError::CalendarOverflow.message(), "invalid or out-of-range date");
    assert_eq!(ConversionError::OffsetOutOfRange.message(), "fixed offset out of bounds");
    assert_eq!(Field::Microsecond.name(), "microsecond");
    assert_eq!(ConversionError::MissingTimezone.message(), "missing timezone or not a fixed offset timezone");
    assert_eq!(ConversionError::TypeMismatch(TemporalKind::Date).message(), "object is not of the expected temporal type");
    assert_eq!(
        ConversionError::FieldExtractionFailure(Field::Year).message(),
        "field could not be read or does not fit"
    );
    assert_eq!(Field::Offset.name(), "utcoffset");
    assert_eq!(Field::Year.name(), "year");
    assert_eq!(TemporalKind::TzInfo.name(), "tzinfo");
    assert_eq!(TemporalKind::Delta.name(), "timedelta");
    assert_eq!(TemporalKind::DateTime.name(), "datetime");
}

#[test]
fn restricted_zoned_resolution() {
    let cache = warmed_cache();
    let ob = dyn_object(
        11,
        &[
            (AttrName::Year, 2000),
            (AttrName::Month, 1),
            (AttrName::Day, 1),
            (AttrName::Hour, 0),
            (AttrName::Minute, 0),
            (AttrName::Second, 0),
            (AttrName::Microsecond, 0),
        ],
    );
    let tz = dyn_object(13, &[]);
    let plus_one = dyn_object(12, &[(AttrName::Days, 0), (AttrName::Seconds, 3600), (AttrName::Microseconds, 0)]);
    let z = zoned_from_dyn(&ob, Some(&tz), Some(&plus_one), &cache).unwrap();
    assert_eq!(z.offset().seconds(), 3600);
    assert_eq!(z.timestamp(), Instant { second: 946_681_200, nanosecond: 0 });
    assert_eq!(
        instant_from_dyn(&ob, Some(&tz), Some(&plus_one), &cache),
        Ok(Instant { second: 946_681_200, nanosecond: 0 })
    );
    assert_eq!(zoned_from_dyn(&ob, None, None, &cache), Err(ConversionError::MissingTimezone));
    assert_eq!(zoned_from_dyn(&ob, Some(&tz), None, &cache), Err(ConversionError::MissingTimezone));
    let bad_date = dyn_object(11, &[(AttrName::Year, 2000), (AttrName::Month, 1), (AttrName::Day, 1)]);
    assert_eq!(
        zoned_from_dyn(&bad_date, Some(&tz), Some(&plus_one), &cache),
        Err(ConversionError::TypeMismatch(TemporalKind::DateTime))
    );
    let far = dyn_object(12, &[(AttrName::Days, 2), (AttrName::Seconds, 0), (AttrName::Microseconds, 0)]);
    assert_eq!(zoned_from_dyn(&bad_date, Some(&tz), Some(&far), &cache), Err(ConversionError::OffsetOutOfRange));
}

#[test]
fn instant_formula_values() {
    // 1969-12-31T23:00:00.25 at -01:00 is 1970-01-01T00:00:00.25Z.
    let ob = host_datetime((1969, 12, 31), (23, 0, 0), 250_000, Some(Some(offset_delta(-3600))));
    assert_eq!(Instant::from_native(&ob), Ok(Instant { second: 0, nanosecond: 250_000_000 }));
    // 1970-01-01T00:00:00.25 at +01:00 is 1969-12-31T23:00:00.25Z.
    let east = host_datetime((1970, 1, 1), (0, 0, 0), 250_000, Some(Some(offset_delta(3600))));
    assert_eq!(Instant::from_native(&east), Ok(Instant { second: -3599, nanosecond: -750_000_000 }));
    let first = host_datetime((1, 1, 1), (0, 0, 0), 0, Some(Some(offset_delta(0))));
    assert_eq!(Instant::from_native(&first), Ok(Instant { second: -62_135_596_800, nanosecond: 0 }));
    let last_ok = host_datetime((9999, 12, 30), (22, 0, 0), 999_999, Some(Some(offset_delta(0))));
    assert_eq!(Instant::from_native(&last_ok), Ok(Instant { second: 253_402_207_200, nanosecond: 999_999_000 }));
    let one_past = host_datetime((9999, 12, 30), (22, 0, 1), 0, Some(Some(offset_delta(0))));
    assert_eq!(Instant::from_native(&one_past), Err(ConversionError::CalendarOverflow));
}
