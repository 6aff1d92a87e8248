//! Civil calendar facts about instants, supplied by chrono through arrow's
//! temporal conversions, and stated here over the proleptic Gregorian
//! calendar.

use vstd::prelude::*;
use arrow_array::temporal_conversions::{
    date32_to_datetime, date64_to_datetime, timestamp_ms_to_datetime, timestamp_ns_to_datetime,
    timestamp_s_to_datetime, timestamp_us_to_datetime,
};
use arrow_array::timezone::Tz;
use chrono::{DateTime, Datelike, Offset, TimeZone as ChronoTimeZone, Timelike};

verus! {

pub open spec fn is_leap_year(y: int) -> bool {
    (y % 4 == 0 && y % 100 != 0) || y % 400 == 0
}

pub open spec fn days_in_month(y: int, m: int) -> int {
    if m == 2 {
        if is_leap_year(y) {
            29
        } else {
            28
        }
    } else if m == 4 || m == 6 || m == 9 || m == 11 {
        30
    } else {
        31
    }
}

/// Days of the year `y` before the first of month `m`.
pub open spec fn days_before_month(y: int, m: int) -> int {
    let leap: int = if is_leap_year(y) {
        1
    } else {
        0
    };
    if m <= 1 {
        0
    } else if m == 2 {
        31
    } else if m == 3 {
        59 + leap
    } else if m == 4 {
        90 + leap
    } else if m == 5 {
        120 + leap
    } else if m == 6 {
        151 + leap
    } else if m == 7 {
        181 + leap
    } else if m == 8 {
        212 + leap
    } else if m == 9 {
        243 + leap
    } else if m == 10 {
        273 + leap
    } else if m == 11 {
        304 + leap
    } else {
        334 + leap
    }
}

/// Days from 0001-01-01 to the first of January of year `y`.
pub open spec fn days_before_year(y: int) -> int {
    let p = y - 1;
    365 * p + p / 4 - p / 100 + p / 400
}

/// The day number of a civil date, counted from 1970-01-01.
pub open spec fn epoch_day(y: int, m: int, d: int) -> int {
    days_before_year(y) + days_before_month(y, m) + d - 1 - days_before_year(1970)
}

/// The earliest and latest days chrono represents.
pub open spec fn min_supported_day() -> int {
    epoch_day(-262143, 1, 1)
}

pub open spec fn max_supported_day() -> int {
    epoch_day(262142, 12, 31)
}

pub open spec fn day_in_supported_range(n: int) -> bool {
    min_supported_day() <= n <= max_supported_day()
}

/// Monday is 0, and 1970-01-01 was a Thursday.
pub open spec fn weekday_from_monday(n: int) -> int {
    (n + 3) % 7
}

/// The fields of a civil date and time.
#[derive(Clone, Copy, Debug, PartialEq, Eq, Structural)]
pub struct CivilDateTime {
    pub year: i32,
    pub month: u32,
    pub day: u32,
    pub ordinal: u32,
    pub weekday_from_monday: u32,
    pub iso_year: i32,
    pub iso_week: u32,
    pub hour: u32,
    pub minute: u32,
    pub second: u32,
    pub nanosecond: u32,
}

/// `c` is the civil date and time `secs` seconds and `nanos` nanoseconds
/// after 1970-01-01T00:00:00.
pub open spec fn civil_of(c: CivilDateTime, secs: int, nanos: int) -> bool {
    let n = secs / 86400;
    let sod = secs % 86400;
    let thursday = n - c.weekday_from_monday + 3;
    let iso_start = epoch_day(c.iso_year as int, 1, 1);
    &&& 1 <= c.month <= 12
    &&& 1 <= c.day <= days_in_month(c.year as int, c.month as int)
    &&& epoch_day(c.year as int, c.month as int, c.day as int) == n
    &&& c.ordinal == days_before_month(c.year as int, c.month as int) + c.day
    &&& c.weekday_from_monday == weekday_from_monday(n)
    &&& iso_start <= thursday < epoch_day(c.iso_year + 1, 1, 1)
    &&& c.iso_week == (thursday - iso_start) / 7 + 1
    &&& c.hour == sod / 3600
    &&& c.minute == (sod / 60) % 60
    &&& c.second == sod % 60
    &&& c.nanosecond == nanos
}

/// What a conversion of `secs` and `nanos` into civil time gives: `None`
/// exactly outside chrono's range of days.
pub open spec fn civil_result(r: Option<CivilDateTime>, secs: int, nanos: int) -> bool {
    &&& r is Some <==> day_in_supported_range(secs / 86400)
    &&& r matches Some(c) ==> civil_of(c, secs, nanos)
}

/// A year has 365 days, or 366 in a leap year.
pub proof fn lemma_year_length(y: int)
    ensures
        days_before_year(y + 1) - days_before_year(y) == if is_leap_year(y) {
            366int
        } else {
            365int
        },
{
}

/// Later years start later.
pub proof fn lemma_year_starts_ordered(y1: int, y2: int)
    requires
        y1 < y2,
    ensures
        days_before_year(y1 + 1) <= days_before_year(y2),
    decreases y2 - y1,
{
    if y1 + 1 < y2 {
        lemma_year_starts_ordered(y1, y2 - 1);
        lemma_year_length(y2 - 1);
    }
}

pub open spec fn valid_date(y: int, m: int, d: int) -> bool {
    1 <= m <= 12 && 1 <= d <= days_in_month(y, m)
}

/// A valid date falls within its year.
pub proof fn lemma_date_in_year(y: int, m: int, d: int)
    requires
        valid_date(y, m, d),
    ensures
        days_before_year(y) <= days_before_year(y) + days_before_month(y, m) + d - 1 < days_before_year(
            y + 1,
        ),
{
    lemma_year_length(y);
}

/// Distinct valid dates have distinct day numbers.
pub proof fn lemma_epoch_day_injective(y1: int, m1: int, d1: int, y2: int, m2: int, d2: int)
    requires
        valid_date(y1, m1, d1),
        valid_date(y2, m2, d2),
        epoch_day(y1, m1, d1) == epoch_day(y2, m2, d2),
    ensures
        y1 == y2 && m1 == m2 && d1 == d2,
{
    lemma_date_in_year(y1, m1, d1);
    lemma_date_in_year(y2, m2, d2);
    if y1 < y2 {
        lemma_year_starts_ordered(y1, y2);
    } else if y2 < y1 {
        lemma_year_starts_ordered(y2, y1);
    }
    assert(y1 == y2);
}

/// Only one year starts at or before `t` with the next starting after it.
pub proof fn lemma_year_of_day_unique(y1: int, y2: int, t: int)
    requires
        days_before_year(y1) <= t < days_before_year(y1 + 1),
        days_before_year(y2) <= t < days_before_year(y2 + 1),
    ensures
        y1 == y2,
{
    if y1 < y2 {
        lemma_year_starts_ordered(y1, y2);
    } else if y2 < y1 {
        lemma_year_starts_ordered(y2, y1);
    }
}

/// The civil fields of an instant are unique.
pub proof fn lemma_civil_unique(c1: CivilDateTime, c2: CivilDateTime, secs: int, nanos: int)
    requires
        civil_of(c1, secs, nanos),
        civil_of(c2, secs, nanos),
    ensures
        c1 == c2,
{
    lemma_epoch_day_injective(
        c1.year as int,
        c1.month as int,
        c1.day as int,
        c2.year as int,
        c2.month as int,
        c2.day as int,
    );
    let t = secs / 86400 - c1.weekday_from_monday + 3;
    lemma_year_of_day_unique(
        c1.iso_year as int,
        c2.iso_year as int,
        t + days_before_year(1970),
    );
}

/// Relies on arrow's `date32_to_datetime` and chrono's `Datelike` /
/// `Timelike` accessors: the civil date of a day count.
#[verifier::external_body]
pub(crate) fn date32_civil(v: i32) -> (r: Option<CivilDateTime>)
    ensures
        civil_result(r, v as int * 86400, 0),
{
    date32_to_datetime(v).map(|t| CivilDateTime {
        year: t.year(), month: t.month(), day: t.day(), ordinal: t.ordinal(),
        weekday_from_monday: t.weekday().num_days_from_monday(), iso_year: t.iso_week().year(),
        iso_week: t.iso_week().week(), hour: t.hour(), minute: t.minute(), second: t.second(),
        nanosecond: t.nanosecond(),
    })
}

/// Relies on arrow's `date64_to_datetime` and chrono's accessors: the civil
/// time of a millisecond count, split with euclidean division.
#[verifier::external_body]
pub(crate) fn date64_civil(v: i64) -> (r: Option<CivilDateTime>)
    ensures
        civil_result(r, v as int / 1000, (v as int % 1000) * 1_000_000),
{
    date64_to_datetime(v).map(|t| CivilDateTime {
        year: t.year(), month: t.month(), day: t.day(), ordinal: t.ordinal(),
        weekday_from_monday: t.weekday().num_days_from_monday(), iso_year: t.iso_week().year(),
        iso_week: t.iso_week().week(), hour: t.hour(), minute: t.minute(), second: t.second(),
        nanosecond: t.nanosecond(),
    })
}

/// Relies on arrow's `timestamp_s_to_datetime` and chrono's accessors.
#[verifier::external_body]
pub(crate) fn timestamp_s_civil(v: i64) -> (r: Option<CivilDateTime>)
    ensures
        civil_result(r, v as int, 0),
{
    timestamp_s_to_datetime(v).map(|t| CivilDateTime {
        year: t.year(), month: t.month(), day: t.day(), ordinal: t.ordinal(),
        weekday_from_monday: t.weekday().num_days_from_monday(), iso_year: t.iso_week().year(),
        iso_week: t.iso_week().week(), hour: t.hour(), minute: t.minute(), second: t.second(),
        nanosecond: t.nanosecond(),
    })
}

/// Relies on arrow's `timestamp_ms_to_datetime` and chrono's accessors:
/// the count is split with euclidean division.
#[verifier::external_body]
pub(crate) fn timestamp_ms_civil(v: i64) -> (r: Option<CivilDateTime>)
    ensures
        civil_result(r, v as int / 1000, (v as int % 1000) * 1_000_000),
{
    timestamp_ms_to_datetime(v).map(|t| CivilDateTime {
        year: t.year(), month: t.month(), day: t.day(), ordinal: t.ordinal(),
        weekday_from_monday: t.weekday().num_days_from_monday(), iso_year: t.iso_week().year(),
        iso_week: t.iso_week().week(), hour: t.hour(), minute: t.minute(), second: t.second(),
        nanosecond: t.nanosecond(),
    })
}

/// Relies on arrow's `timestamp_us_to_datetime` and chrono's accessors:
/// the count is split with euclidean division.
#[verifier::external_body]
pub(crate) fn timestamp_us_civil(v: i64) -> (r: Option<CivilDateTime>)
    ensures
        civil_result(r, v as int / 1_000_000, (v as int % 1_000_000) * 1000),
{
    timestamp_us_to_datetime(v).map(|t| CivilDateTime {
        year: t.year(), month: t.month(), day: t.day(), ordinal: t.ordinal(),
        weekday_from_monday: t.weekday().num_days_from_monday(), iso_year: t.iso_week().year(),
        iso_week: t.iso_week().week(), hour: t.hour(), minute: t.minute(), second: t.second(),
        nanosecond: t.nanosecond(),
    })
}

/// Relies on arrow's `timestamp_ns_to_datetime` and chrono's accessors:
/// the count is split with euclidean division.
#[verifier::external_body]
pub(crate) fn timestamp_ns_civil(v: i64) -> (r: Option<CivilDateTime>)
    ensures
        civil_result(r, v as int / 1_000_000_000, v as int % 1_000_000_000),
{
    timestamp_ns_to_datetime(v).map(|t| CivilDateTime {
        year: t.year(), month: t.month(), day: t.day(), ordinal: t.ordinal(),
        weekday_from_monday: t.weekday().num_days_from_monday(), iso_year: t.iso_week().year(),
        iso_week: t.iso_week().week(), hour: t.hour(), minute: t.minute(), second: t.second(),
        nanosecond: t.nanosecond(),
    })
}

#[verifier::external_type_specification]
#[verifier::external_body]
pub struct ExTz(Tz);

/// The zone name parses as a fixed offset or as a zone of the tz database.
pub uninterp spec fn zone_name_is_valid(name: Seq<char>) -> bool;

/// The offset from UTC, in seconds, of the named zone at an instant.
pub uninterp spec fn zone_offset(name: Seq<char>, utc_seconds: int) -> int;

pub open spec fn digit_value(c: char) -> int {
    c as int - '0' as int
}

pub open spec fn is_ascii_digit(c: char) -> bool {
    '0' <= c <= '9'
}

/// The offset, in seconds, that a fixed-offset zone name `[+-]HH`,
/// `[+-]HHMM` or `[+-]HH:MM` spells, when it spells one under a day.
pub open spec fn fixed_offset_seconds(name: Seq<char>) -> Option<int> {
    let (h1, h2, m1, m2) = if name.len() == 6 && name[3] == ':' {
        (name[1], name[2], name[4], name[5])
    } else if name.len() == 5 {
        (name[1], name[2], name[3], name[4])
    } else if name.len() == 3 {
        (name[1], name[2], '0', '0')
    } else {
        ('x', 'x', 'x', 'x')
    };
    let secs = (digit_value(h1) * 10 + digit_value(h2)) * 3600 + (digit_value(m1) * 10
        + digit_value(m2)) * 60;
    if is_ascii_digit(h1) && is_ascii_digit(h2) && is_ascii_digit(m1) && is_ascii_digit(m2) && secs
        < 86400 && (name[0] == '+' || name[0] == '-') {
        Some(
            if name[0] == '+' {
                secs
            } else {
                -secs
            },
        )
    } else {
        None
    }
}

/// Relies on arrow's `Tz::from_str`: fixed offsets such as `+01:00`,
/// `+0100` or `+01`, and names of the tz database compiled into
/// chrono-tz; the outcome depends on the name alone.
#[verifier::external_body]
fn parse_tz(name: &str) -> (r: Option<Tz>)
    ensures
        r is Some <==> zone_name_is_valid(name@),
        fixed_offset_seconds(name@) is Some ==> r is Some,
{
    name.parse::<Tz>().ok()
}

/// A parsed time zone, with the name it was parsed from.
pub struct TimeZone {
    name: String,
    tz: Tz,
}

impl TimeZone {
    pub closed spec fn name_view(&self) -> Seq<char> {
        self.name@
    }

    /// Parses a zone name, `None` when it names no zone.
    pub fn parse(name: &str) -> (r: Option<TimeZone>)
        ensures
            r is Some <==> zone_name_is_valid(name@),
            r matches Some(z) ==> z.name_view() == name@,
            fixed_offset_seconds(name@) is Some ==> r is Some,
    {
        match parse_tz(name) {
            Some(tz) => Some(TimeZone { name: name.to_owned(), tz }),
            None => None,
        }
    }
}

/// Relies on chrono's `DateTime::from_timestamp` and on
/// `TimeZone::offset_from_utc_datetime` of arrow's `Tz`: the zone's offset
/// at that UTC instant, which depends on the zone and the instant alone.
/// chrono's `FixedOffset` keeps it strictly within one day; a name that
/// arrow's `parse_fixed_offset` reads is that fixed offset at every instant.
#[verifier::external_body]
fn zone_offset_seconds(zone: &TimeZone, utc_seconds: i64) -> (r: Option<i32>)
    ensures
        r is Some <==> day_in_supported_range(utc_seconds as int / 86400),
        r matches Some(o) ==> o == zone_offset(zone.name_view(), utc_seconds as int) && -86400 < o
            < 86400,
        fixed_offset_seconds(zone.name_view()) is Some ==> (r matches Some(o) ==> o
            == fixed_offset_seconds(zone.name_view())->Some_0),
{
    DateTime::from_timestamp(utc_seconds, 0)
        .map(|t| zone.tz.offset_from_utc_datetime(&t.naive_utc()).fix().local_minus_utc())
}

impl TimeZone {
    /// The offset of this zone from UTC at an instant.
    pub fn offset_at(&self, utc_seconds: i64) -> (r: Option<i32>)
        ensures
            r is Some <==> day_in_supported_range(utc_seconds as int / 86400),
            r matches Some(o) ==> o == zone_offset(self.name_view(), utc_seconds as int) && -86400
                < o < 86400,
            fixed_offset_seconds(self.name_view()) is Some ==> (r matches Some(o) ==> o
                == fixed_offset_seconds(self.name_view())->Some_0),
    {
        zone_offset_seconds(self, utc_seconds)
    }
}

} // verus!
