use vstd::prelude::*;
use crate::calendar::{jiff_date_valid, time_valid, offset_valid};

verus! {

/// The earliest Unix second of a jiff timestamp.
pub const MIN_UNIX_SECOND: i64 = -377705023201;

/// The latest Unix second of a jiff timestamp.
pub const MAX_UNIX_SECOND: i64 = 253402207200;

/// Days from 1970-01-01 to the proleptic Gregorian date `y-m-d`.
pub open spec fn days_from_civil(y: int, m: int, d: int) -> int {
    let y = if m <= 2 { y - 1 } else { y };
    let era = y / 400;
    let yoe = y - era * 400;
    let mp = if m > 2 { m - 3 } else { m + 9 };
    let doy = (153 * mp + 2) / 5 + d - 1;
    let doe = yoe * 365 + yoe / 4 - yoe / 100 + doy;
    era * 146097 + doe - 719468
}

/// The Unix second at or before the civil date-time `y-m-d h:mi:s` read in
/// the offset of `off` seconds east of UTC.
pub open spec fn floor_unix_second(y: int, m: int, d: int, h: int, mi: int, s: int, off: int) -> int {
    days_from_civil(y, m, d) * 86400 + h * 3600 + mi * 60 + s - off
}

/// The instant of the civil date-time `y-m-d h:mi:s.ns` read in the offset
/// `off`, as Unix seconds counted toward zero and nanoseconds that carry the
/// instant's sign; `None` where its second lies outside jiff's range.
pub open spec fn zoned_instant(
    y: int,
    m: int,
    d: int,
    h: int,
    mi: int,
    s: int,
    ns: int,
    off: int,
) -> Option<(i64, i32)> {
    let base = floor_unix_second(y, m, d, h, mi, s, off);
    if base < MIN_UNIX_SECOND || base > MAX_UNIX_SECOND {
        None
    } else if base < 0 && ns > 0 {
        Some(((base + 1) as i64, (ns - 1_000_000_000) as i32))
    } else {
        Some((base as i64, ns as i32))
    }
}

/// The instant depends on the civil date-time and the offset only through
/// their difference: equal wall-clock seconds minus offset, and equal
/// nanoseconds, give the same instant.
pub proof fn lemma_instant_by_floor_second(
    a: (int, int, int, int, int, int, int, int),
    b: (int, int, int, int, int, int, int, int),
)
    requires
        floor_unix_second(a.0, a.1, a.2, a.3, a.4, a.5, a.7) == floor_unix_second(
            b.0,
            b.1,
            b.2,
            b.3,
            b.4,
            b.5,
            b.7,
        ),
        a.6 == b.6,
    ensures
        zoned_instant(a.0, a.1, a.2, a.3, a.4, a.5, a.6, a.7) == zoned_instant(
            b.0,
            b.1,
            b.2,
            b.3,
            b.4,
            b.5,
            b.6,
            b.7,
        ),
{
}

/// The Unix epoch, 1970-01-01 00:00:00 in UTC, is instant zero.
pub proof fn lemma_unix_epoch()
    ensures
        zoned_instant(1970, 1, 1, 0, 0, 0, 0, 0) == Some((0i64, 0i32)),
{
    assert(days_from_civil(1970, 1, 1) == 0);
}

/// Relies on jiff::civil::Date::new, which accepts exactly the years
/// -9999..=9999, the months 1..=12 and the days of that month.
#[verifier::external_body]
pub(crate) fn jiff_accepts_date(year: i16, month: i8, day: i8) -> (r: bool)
    ensures
        r == jiff_date_valid(year as int, month as int, day as int),
{
    jiff::civil::Date::new(year, month, day).is_ok()
}

/// Relies on jiff::civil::DateTime::new, which accepts a valid date with
/// hour 0..=23, minute 0..=59, second 0..=59 and nanosecond 0..=999,999,999.
#[verifier::external_body]
pub(crate) fn jiff_accepts_datetime(
    year: i16,
    month: i8,
    day: i8,
    hour: i8,
    minute: i8,
    second: i8,
    subsec_nanosecond: i32,
) -> (r: bool)
    ensures
        r == (jiff_date_valid(year as int, month as int, day as int) && time_valid(
            hour as int,
            minute as int,
            second as int,
            subsec_nanosecond as int,
        )),
{
    jiff::civil::DateTime::new(year, month, day, hour, minute, second, subsec_nanosecond).is_ok()
}

/// Relies on jiff::tz::Offset::from_seconds, which accepts exactly
/// -93,599..=93,599 seconds.
#[verifier::external_body]
pub(crate) fn jiff_accepts_offset(seconds: i32) -> (r: bool)
    ensures
        r == offset_valid(seconds as int),
{
    jiff::tz::Offset::from_seconds(seconds).is_ok()
}

/// Relies on jiff::civil::DateTime::to_zoned with a fixed-offset time zone,
/// followed by Zoned::timestamp: for a fixed offset the Unix second is the
/// civil second minus the offset, normalised so that seconds and nanoseconds
/// share a sign, and it fails exactly where that second is out of jiff's
/// timestamp range.
#[verifier::external_body]
pub(crate) fn jiff_zoned_instant(
    year: i16,
    month: i8,
    day: i8,
    hour: i8,
    minute: i8,
    second: i8,
    subsec_nanosecond: i32,
    offset_seconds: i32,
) -> (r: Option<(i64, i32)>)
    requires
        jiff_date_valid(year as int, month as int, day as int),
        time_valid(hour as int, minute as int, second as int, subsec_nanosecond as int),
        offset_valid(offset_seconds as int),
    ensures
        r == zoned_instant(
            year as int,
            month as int,
            day as int,
            hour as int,
            minute as int,
            second as int,
            subsec_nanosecond as int,
            offset_seconds as int,
        ),
{
    let dt = jiff::civil::DateTime::new(year, month, day, hour, minute, second, subsec_nanosecond).ok()?;
    let tz = jiff::tz::Offset::from_seconds(offset_seconds).ok()?.to_time_zone();
    let ts = dt.to_zoned(tz).ok()?.timestamp();
    Some((ts.as_second(), ts.subsec_nanosecond()))
}

} // verus!
