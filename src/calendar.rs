use vstd::prelude::*;

verus! {

/// The earliest year this layer supports.
pub const MIN_YEAR: i16 = 1;

/// The latest year this layer supports.
pub const MAX_YEAR: i16 = 9999;

/// The largest magnitude, in seconds, of a fixed offset (25:59:59).
pub const MAX_OFFSET_SECONDS: i32 = 93599;

/// The largest sub-second nanosecond value.
pub const MAX_SUBSEC_NANOS: i32 = 999_999_999;

/// Gregorian leap-year rule.
pub open spec fn is_leap_year(y: int) -> bool {
    (y % 4 == 0 && y % 100 != 0) || y % 400 == 0
}

pub open spec fn days_in_month(y: int, m: int) -> int {
    if m == 2 {
        if is_leap_year(y) { 29 } else { 28 }
    } else if m == 4 || m == 6 || m == 9 || m == 11 {
        30
    } else {
        31
    }
}

/// Month and day form a day of year `y`.
pub open spec fn month_day_valid(y: int, m: int, d: int) -> bool {
    1 <= m <= 12 && 1 <= d <= days_in_month(y, m)
}

/// What jiff accepts as a civil date.
pub open spec fn jiff_date_valid(y: int, m: int, d: int) -> bool {
    -9999 <= y <= 9999 && month_day_valid(y, m, d)
}

/// A date within the range this layer supports, [0001-01-01, 9999-12-31].
pub open spec fn supported_date(y: int, m: int, d: int) -> bool {
    MIN_YEAR <= y <= MAX_YEAR && month_day_valid(y, m, d)
}

/// A valid wall-clock time of day with nanosecond precision.
pub open spec fn time_valid(h: int, mi: int, s: int, ns: int) -> bool {
    0 <= h <= 23 && 0 <= mi <= 59 && 0 <= s <= 59 && 0 <= ns <= MAX_SUBSEC_NANOS
}

/// A whole-second offset that a fixed offset can hold.
pub open spec fn offset_valid(s: int) -> bool {
    -MAX_OFFSET_SECONDS <= s <= MAX_OFFSET_SECONDS
}

} // verus!
