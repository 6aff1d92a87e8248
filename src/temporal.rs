//! The temporal part-extraction engine: the calendar or clock parts of
//! dates, times, timestamps, intervals and durations, as 32-bit integers.

use vstd::prelude::*;
use crate::calendar::{
    lemma_civil_unique,
    CivilDateTime, TimeZone, civil_of, civil_result, date32_civil, date64_civil,
    day_in_supported_range, timestamp_ms_civil, timestamp_ns_civil, timestamp_s_civil,
    timestamp_us_civil, zone_name_is_valid, zone_offset,
};
use crate::error::{KernelError, message_text};
use crate::i256::{trunc_div, trunc_rem};
use vstd::arithmetic::div_mod::{
    lemma_div_denominator, lemma_div_is_ordered, lemma_div_multiples_vanish, lemma_div_pos_is_pos,
    lemma_fundamental_div_mod, lemma_fundamental_div_mod_converse, lemma_mod_pos_bound, lemma_mod_bound,
};

verus! {

/// A part that can be extracted from a temporal value.
#[derive(Clone, Copy, Debug, PartialEq, Eq, Structural)]
pub enum DatePart {
    /// Quarter of the year, in `1..=4`.
    Quarter,
    /// Calendar year.
    Year,
    /// ISO 8601 week-numbering year.
    YearISO,
    /// Month of the year, in `1..=12`.
    Month,
    /// ISO 8601 week of the year, in `1..=53`.
    Week,
    /// ISO 8601 week of the year, in `1..=53`.
    WeekISO,
    /// Day of the month, in `1..=31`.
    Day,
    /// Day of the week, Sunday being `0`.
    DayOfWeekSunday0,
    /// Day of the week, Monday being `0`.
    DayOfWeekMonday0,
    /// Day of the year, in `1..=366`.
    DayOfYear,
    /// Hour of the day, in `0..=23`.
    Hour,
    /// Minute of the hour, in `0..=59`.
    Minute,
    /// Second of the minute, in `0..=59`.
    Second,
    /// Millisecond of the second.
    Millisecond,
    /// Microsecond of the second.
    Microsecond,
    /// Nanosecond of the second.
    Nanosecond,
}

/// The name of a part.
pub open spec fn part_text(part: DatePart) -> Seq<char> {
    match part {
        DatePart::Quarter => "Quarter"@,
        DatePart::Year => "Year"@,
        DatePart::YearISO => "YearISO"@,
        DatePart::Month => "Month"@,
        DatePart::Week => "Week"@,
        DatePart::WeekISO => "WeekISO"@,
        DatePart::Day => "Day"@,
        DatePart::DayOfWeekSunday0 => "DayOfWeekSunday0"@,
        DatePart::DayOfWeekMonday0 => "DayOfWeekMonday0"@,
        DatePart::DayOfYear => "DayOfYear"@,
        DatePart::Hour => "Hour"@,
        DatePart::Minute => "Minute"@,
        DatePart::Second => "Second"@,
        DatePart::Millisecond => "Millisecond"@,
        DatePart::Microsecond => "Microsecond"@,
        DatePart::Nanosecond => "Nanosecond"@,
    }
}

impl DatePart {
    pub fn name(&self) -> (r: &'static str)
        ensures
            r@ == part_text(*self),
    {
        match self {
            DatePart::Quarter => "Quarter",
            DatePart::Year => "Year",
            DatePart::YearISO => "YearISO",
            DatePart::Month => "Month",
            DatePart::Week => "Week",
            DatePart::WeekISO => "WeekISO",
            DatePart::Day => "Day",
            DatePart::DayOfWeekSunday0 => "DayOfWeekSunday0",
            DatePart::DayOfWeekMonday0 => "DayOfWeekMonday0",
            DatePart::DayOfYear => "DayOfYear",
            DatePart::Hour => "Hour",
            DatePart::Minute => "Minute",
            DatePart::Second => "Second",
            DatePart::Millisecond => "Millisecond",
            DatePart::Microsecond => "Microsecond",
            DatePart::Nanosecond => "Nanosecond",
        }
    }
}

/// The parts below one day.
pub open spec fn is_time_part(part: DatePart) -> bool {
    part is Hour || part is Minute || part is Second || part is Millisecond || part is Microsecond
        || part is Nanosecond
}

/// The parts below one second.
pub open spec fn is_subsecond_part(part: DatePart) -> bool {
    part is Millisecond || part is Microsecond || part is Nanosecond
}

fn time_part(part: DatePart) -> (r: bool)
    ensures
        r == is_time_part(part),
{
    match part {
        DatePart::Hour | DatePart::Minute | DatePart::Second | DatePart::Millisecond
        | DatePart::Microsecond | DatePart::Nanosecond => true,
        _ => false,
    }
}

#[derive(Clone, Copy, Debug, PartialEq, Eq, Structural)]
pub enum TimeUnit {
    Second,
    Millisecond,
    Microsecond,
    Nanosecond,
}

/// Units in one second.
pub open spec fn units_per_second(unit: TimeUnit) -> int {
    match unit {
        TimeUnit::Second => 1,
        TimeUnit::Millisecond => 1_000,
        TimeUnit::Microsecond => 1_000_000,
        TimeUnit::Nanosecond => 1_000_000_000,
    }
}

/// Nanoseconds in one unit.
pub open spec fn nanos_per_unit(unit: TimeUnit) -> int {
    1_000_000_000int / units_per_second(unit)
}

impl TimeUnit {
    pub fn per_second(&self) -> (r: i64)
        ensures
            r == units_per_second(*self),
    {
        match self {
            TimeUnit::Second => 1,
            TimeUnit::Millisecond => 1_000,
            TimeUnit::Microsecond => 1_000_000,
            TimeUnit::Nanosecond => 1_000_000_000,
        }
    }
}

/// The type of a temporal column, as errors name it.
#[derive(Clone, Copy, Debug, PartialEq, Eq, Structural)]
pub enum TemporalType {
    Date32,
    Date64,
    Time32(TimeUnit),
    Time64(TimeUnit),
    Timestamp(TimeUnit),
    IntervalYearMonth,
    IntervalDayTime,
    IntervalMonthDayNano,
    Duration(TimeUnit),
}

/// The name of a temporal type, as errors show it.
pub open spec fn type_text(t: TemporalType) -> Seq<char> {
    match t {
            TemporalType::Date32 => "Date32"@,
            TemporalType::Date64 => "Date64"@,
            TemporalType::Time32(TimeUnit::Second) => "Time32(Second)"@,
            TemporalType::Time32(TimeUnit::Millisecond) => "Time32(Millisecond)"@,
            TemporalType::Time32(TimeUnit::Microsecond) => "Time32(Microsecond)"@,
            TemporalType::Time32(TimeUnit::Nanosecond) => "Time32(Nanosecond)"@,
            TemporalType::Time64(TimeUnit::Second) => "Time64(Second)"@,
            TemporalType::Time64(TimeUnit::Millisecond) => "Time64(Millisecond)"@,
            TemporalType::Time64(TimeUnit::Microsecond) => "Time64(Microsecond)"@,
            TemporalType::Time64(TimeUnit::Nanosecond) => "Time64(Nanosecond)"@,
            TemporalType::Timestamp(TimeUnit::Second) => "Timestamp(Second)"@,
            TemporalType::Timestamp(TimeUnit::Millisecond) => "Timestamp(Millisecond)"@,
            TemporalType::Timestamp(TimeUnit::Microsecond) => "Timestamp(Microsecond)"@,
            TemporalType::Timestamp(TimeUnit::Nanosecond) => "Timestamp(Nanosecond)"@,
            TemporalType::IntervalYearMonth => "Interval(YearMonth)"@,
            TemporalType::IntervalDayTime => "Interval(DayTime)"@,
            TemporalType::IntervalMonthDayNano => "Interval(MonthDayNano)"@,
            TemporalType::Duration(TimeUnit::Second) => "Duration(Second)"@,
            TemporalType::Duration(TimeUnit::Millisecond) => "Duration(Millisecond)"@,
            TemporalType::Duration(TimeUnit::Microsecond) => "Duration(Microsecond)"@,
            TemporalType::Duration(TimeUnit::Nanosecond) => "Duration(Nanosecond)"@,
    }
}

impl TemporalType {
    pub fn name(&self) -> (r: &'static str)
        ensures
            r@ == type_text(*self),
    {
        match self {
            TemporalType::Date32 => "Date32",
            TemporalType::Date64 => "Date64",
            TemporalType::Time32(TimeUnit::Second) => "Time32(Second)",
            TemporalType::Time32(TimeUnit::Millisecond) => "Time32(Millisecond)",
            TemporalType::Time32(TimeUnit::Microsecond) => "Time32(Microsecond)",
            TemporalType::Time32(TimeUnit::Nanosecond) => "Time32(Nanosecond)",
            TemporalType::Time64(TimeUnit::Second) => "Time64(Second)",
            TemporalType::Time64(TimeUnit::Millisecond) => "Time64(Millisecond)",
            TemporalType::Time64(TimeUnit::Microsecond) => "Time64(Microsecond)",
            TemporalType::Time64(TimeUnit::Nanosecond) => "Time64(Nanosecond)",
            TemporalType::Timestamp(TimeUnit::Second) => "Timestamp(Second)",
            TemporalType::Timestamp(TimeUnit::Millisecond) => "Timestamp(Millisecond)",
            TemporalType::Timestamp(TimeUnit::Microsecond) => "Timestamp(Microsecond)",
            TemporalType::Timestamp(TimeUnit::Nanosecond) => "Timestamp(Nanosecond)",
            TemporalType::IntervalYearMonth => "Interval(YearMonth)",
            TemporalType::IntervalDayTime => "Interval(DayTime)",
            TemporalType::IntervalMonthDayNano => "Interval(MonthDayNano)",
            TemporalType::Duration(TimeUnit::Second) => "Duration(Second)",
            TemporalType::Duration(TimeUnit::Millisecond) => "Duration(Millisecond)",
            TemporalType::Duration(TimeUnit::Microsecond) => "Duration(Microsecond)",
            TemporalType::Duration(TimeUnit::Nanosecond) => "Duration(Nanosecond)",
        }
    }
}

/// Days and milliseconds, two fields that never carry into each other.
#[derive(Clone, Copy, Debug, PartialEq, Eq, Structural)]
pub struct IntervalDayTime {
    pub days: i32,
    pub milliseconds: i32,
}

/// Months, days and nanoseconds, three fields that never carry into each
/// other.
#[derive(Clone, Copy, Debug, PartialEq, Eq, Structural)]
pub struct IntervalMonthDayNano {
    pub months: i32,
    pub days: i32,
    pub nanoseconds: i64,
}

/// A temporal column; `None` marks a null.
#[derive(Debug)]
#[allow(inconsistent_fields)]
pub enum TemporalArray {
    /// Days since 1970-01-01.
    Date32(Vec<Option<i32>>),
    /// Milliseconds since 1970-01-01T00:00:00.
    Date64(Vec<Option<i64>>),
    /// Seconds since midnight.
    Time32Second(Vec<Option<i32>>),
    /// Milliseconds since midnight.
    Time32Millisecond(Vec<Option<i32>>),
    /// Microseconds since midnight.
    Time64Microsecond(Vec<Option<i64>>),
    /// Nanoseconds since midnight.
    Time64Nanosecond(Vec<Option<i64>>),
    /// Units since 1970-01-01T00:00:00 UTC, shown in an optional time zone.
    Timestamp { unit: TimeUnit, values: Vec<Option<i64>>, timezone: Option<String> },
    /// Months.
    IntervalYearMonth(Vec<Option<i32>>),
    IntervalDayTime(Vec<Option<IntervalDayTime>>),
    IntervalMonthDayNano(Vec<Option<IntervalMonthDayNano>>),
    /// A span of units without calendar meaning.
    Duration { unit: TimeUnit, values: Vec<Option<i64>> },
    /// Keys into a column of distinct values.
    Dictionary { keys: Vec<Option<i64>>, values: Box<TemporalArray> },
}

/// The result of an extraction: 32-bit integers, or a dictionary of them
/// that shares the input's keys.
#[derive(Debug)]
#[allow(inconsistent_fields)]
pub enum PartArray {
    Int32(Vec<Option<i32>>),
    Dictionary { keys: Vec<Option<i64>>, values: Box<PartArray> },
}

/// `out` is `a` mapped by `rel` element by element, a null staying null.
pub open spec fn mapped_by<T>(
    a: Seq<Option<T>>,
    out: Seq<Option<i32>>,
    rel: spec_fn(T, Option<i32>) -> bool,
) -> bool {
    &&& out.len() == a.len()
    &&& forall|i: int|
        0 <= i < a.len() ==> match a[i] {
            None => #[trigger] out[i] is None,
            Some(x) => rel(x, out[i]),
        }
}

fn map_column<T: Copy, F: Fn(T) -> Option<i32>>(
    values: &Vec<Option<T>>,
    f: F,
    rel: Ghost<spec_fn(T, Option<i32>) -> bool>,
) -> (r: Vec<Option<i32>>)
    requires
        forall|x: T| f.requires((x,)),
        forall|x: T, y: Option<i32>| f.ensures((x,), y) ==> (rel@)(x, y),
    ensures
        mapped_by(values@, r@, rel@),
{
    let mut out: Vec<Option<i32>> = Vec::new();
    let mut i: usize = 0;
    while i < values.len()
        invariant
            0 <= i <= values@.len(),
            out@.len() == i,
            forall|x: T| f.requires((x,)),
            forall|x: T, y: Option<i32>| f.ensures((x,), y) ==> (rel@)(x, y),
            forall|j: int|
                0 <= j < i ==> match values@[j] {
                    None => #[trigger] out@[j] is None,
                    Some(x) => (rel@)(x, out@[j]),
                },
        decreases values@.len() - i,
    {
        match values[i] {
            None => out.push(None),
            Some(x) => {
                let y = f(x);
                out.push(y);
            },
        }
        i += 1;
    }
    out
}

/// The part of a civil date and time, as chrono's accessors give it.
pub open spec fn civil_part(c: CivilDateTime, part: DatePart) -> i32 {
    match part {
        DatePart::Quarter => ((c.month - 1) / 3 + 1) as i32,
        DatePart::Year => c.year,
        DatePart::YearISO => c.iso_year,
        DatePart::Month => c.month as i32,
        DatePart::Week | DatePart::WeekISO => c.iso_week as i32,
        DatePart::Day => c.day as i32,
        DatePart::DayOfWeekSunday0 => ((c.weekday_from_monday + 1) % 7) as i32,
        DatePart::DayOfWeekMonday0 => c.weekday_from_monday as i32,
        DatePart::DayOfYear => c.ordinal as i32,
        DatePart::Hour => c.hour as i32,
        DatePart::Minute => c.minute as i32,
        DatePart::Second => c.second as i32,
        DatePart::Millisecond => (c.nanosecond / 1_000_000) as i32,
        DatePart::Microsecond => (c.nanosecond / 1_000) as i32,
        DatePart::Nanosecond => c.nanosecond as i32,
    }
}

fn civil_part_value(c: &CivilDateTime, part: DatePart) -> (r: i32)
    requires
        1 <= c.month <= 12,
        c.weekday_from_monday < 7,
    ensures
        r == civil_part(*c, part),
{
    match part {
        DatePart::Quarter => ((c.month - 1) / 3 + 1) as i32,
        DatePart::Year => c.year,
        DatePart::YearISO => c.iso_year,
        DatePart::Month => c.month as i32,
        DatePart::Week | DatePart::WeekISO => c.iso_week as i32,
        DatePart::Day => c.day as i32,
        DatePart::DayOfWeekSunday0 => ((c.weekday_from_monday + 1) % 7) as i32,
        DatePart::DayOfWeekMonday0 => c.weekday_from_monday as i32,
        DatePart::DayOfYear => c.ordinal as i32,
        DatePart::Hour => c.hour as i32,
        DatePart::Minute => c.minute as i32,
        DatePart::Second => c.second as i32,
        DatePart::Millisecond => (c.nanosecond / 1_000_000) as i32,
        DatePart::Microsecond => (c.nanosecond / 1_000) as i32,
        DatePart::Nanosecond => c.nanosecond as i32,
    }
}

/// `r` is the part of the instant `secs` seconds and `nanos` nanoseconds
/// after the epoch, or `None` when that instant is out of chrono's range.
pub open spec fn civil_element(secs: int, nanos: int, part: DatePart, r: Option<i32>) -> bool {
    match r {
        None => !day_in_supported_range(secs / 86400),
        Some(x) => day_in_supported_range(secs / 86400) && exists|c: CivilDateTime|
            #[trigger] civil_of(c, secs, nanos) && x == civil_part(c, part),
    }
}

/// The part of a converted instant.
fn part_of_civil(c: Option<CivilDateTime>, part: DatePart, secs: Ghost<int>, nanos: Ghost<int>) -> (r: Option<i32>)
    requires
        civil_result(c, secs@, nanos@),
    ensures
        civil_element(secs@, nanos@, part, r),
{
    match c {
        Some(c) => {
            let x = civil_part_value(&c, part);
            proof {
                assert(civil_of(c, secs@, nanos@) && x == civil_part(c, part));
            }
            Some(x)
        },
        None => None,
    }
}

/// The part of a Date32 value (days since the epoch).
pub open spec fn date32_element(v: i32, part: DatePart, r: Option<i32>) -> bool {
    if is_time_part(part) {
        r == Some(0i32)
    } else {
        civil_element(v * 86400, 0, part, r)
    }
}

/// The part of a Date64 value (milliseconds since the epoch).
pub open spec fn date64_element(v: i64, part: DatePart, r: Option<i32>) -> bool {
    civil_element(v as int / 1000, (v as int % 1000) * 1_000_000, part, r)
}

/// The part of a time of day counted in units of which `per_second` make a
/// second, or `None` outside one day.
pub open spec fn time_of_day_part(v: int, per_second: int, part: DatePart) -> Option<i32> {
    if !(0 <= v < per_second * 86400) {
        None
    } else {
        Some(
            match part {
                DatePart::Hour => v / 3600 / per_second,
                DatePart::Minute => (v / 60 / per_second) % 60,
                DatePart::Second => (v / per_second) % 60,
                DatePart::Millisecond => (v % per_second) * 1_000 / per_second,
                DatePart::Microsecond => (v % per_second) * 1_000_000 / per_second,
                _ => (v % per_second) * 1_000_000_000 / per_second,
            } as i32,
        )
    }
}

fn time_of_day_value(v: i64, per_second: i64, part: DatePart) -> (r: Option<i32>)
    requires
        per_second == 1 || per_second == 1_000 || per_second == 1_000_000 || per_second
            == 1_000_000_000,
    ensures
        r == time_of_day_part(v as int, per_second as int, part),
{
    if !(0 <= v && v < per_second * 86400) {
        return None;
    }
    let sub = v % per_second;
    proof {
        assert(0 <= sub < per_second);
        assert(sub * 1_000_000_000 <= 1_000_000_000 * 1_000_000_000) by (nonlinear_arith)
            requires
                0 <= sub < per_second,
                per_second <= 1_000_000_000,
        ;
    }
    let x: i64 = match part {
        DatePart::Hour => v / 3600 / per_second,
        DatePart::Minute => (v / 60 / per_second) % 60,
        DatePart::Second => (v / per_second) % 60,
        DatePart::Millisecond => sub * 1_000 / per_second,
        DatePart::Microsecond => sub * 1_000_000 / per_second,
        _ => sub * 1_000_000_000 / per_second,
    };
    Some(x as i32)
}

/// Durations and intervals put a part that overflows 32 bits at zero.
pub open spec fn narrow_or_zero(v: int) -> i32 {
    if i32::MIN <= v <= i32::MAX {
        v as i32
    } else {
        0i32
    }
}

fn narrow_value(v: i128) -> (r: i32)
    ensures
        r == narrow_or_zero(v as int),
{
    if i32::MIN as i128 <= v && v <= i32::MAX as i128 {
        v as i32
    } else {
        0
    }
}

/// The part of an interval of months.
pub open spec fn year_month_part(months: i32, part: DatePart) -> i32 {
    if part is Year {
        trunc_div(months as int, 12) as i32
    } else {
        trunc_rem(months as int, 12) as i32
    }
}

/// The part of a day-time interval: weeks and days from the days field, the
/// rest from the milliseconds field.
pub open spec fn day_time_part(d: IntervalDayTime, part: DatePart) -> i32 {
    let ms = d.milliseconds as int;
    match part {
        DatePart::Week => trunc_div(d.days as int, 7) as i32,
        DatePart::Day => d.days,
        DatePart::Hour => trunc_div(ms, 3_600_000) as i32,
        DatePart::Minute => trunc_rem(trunc_div(ms, 60_000), 60) as i32,
        DatePart::Second => trunc_rem(trunc_div(ms, 1_000), 60) as i32,
        DatePart::Millisecond => trunc_rem(ms, 60_000) as i32,
        DatePart::Microsecond => narrow_or_zero(trunc_rem(ms, 60_000) * 1_000),
        _ => narrow_or_zero(trunc_rem(ms, 60_000) * 1_000_000),
    }
}

/// The part of a month-day-nano interval: years and months from the months
/// field, weeks and days from the days field, the rest from the nanoseconds
/// field.
pub open spec fn month_day_nano_part(d: IntervalMonthDayNano, part: DatePart) -> i32 {
    let ns = d.nanoseconds as int;
    match part {
        DatePart::Year => trunc_div(d.months as int, 12) as i32,
        DatePart::Month => trunc_rem(d.months as int, 12) as i32,
        DatePart::Week => trunc_div(d.days as int, 7) as i32,
        DatePart::Day => d.days,
        DatePart::Hour => narrow_or_zero(trunc_div(ns, 3_600_000_000_000)),
        DatePart::Minute => narrow_or_zero(trunc_rem(trunc_div(ns, 60_000_000_000), 60)),
        DatePart::Second => narrow_or_zero(trunc_rem(trunc_div(ns, 1_000_000_000), 60)),
        DatePart::Millisecond => narrow_or_zero(trunc_div(trunc_rem(ns, 60_000_000_000), 1_000_000)),
        DatePart::Microsecond => narrow_or_zero(trunc_div(trunc_rem(ns, 60_000_000_000), 1_000)),
        _ => narrow_or_zero(trunc_rem(ns, 60_000_000_000)),
    }
}

/// Nanoseconds in one of the part.
pub open spec fn nanos_per_part(part: DatePart) -> int {
    match part {
        DatePart::Week => 604_800_000_000_000,
        DatePart::Day => 86_400_000_000_000,
        DatePart::Hour => 3_600_000_000_000,
        DatePart::Minute => 60_000_000_000,
        DatePart::Second => 1_000_000_000,
        DatePart::Millisecond => 1_000_000,
        DatePart::Microsecond => 1_000,
        _ => 1,
    }
}

/// A duration of `d` units restated in whole parts, truncated toward zero.
pub open spec fn duration_part(d: i64, unit: TimeUnit, part: DatePart) -> i32 {
    let un = nanos_per_unit(unit);
    let pn = nanos_per_part(part);
    if un >= pn {
        narrow_or_zero(d as int * (un / pn))
    } else {
        narrow_or_zero(trunc_div(d as int, pn / un))
    }
}

fn year_month_value(months: i32, part: DatePart) -> (r: i32)
    ensures
        r == year_month_part(months, part),
{
    if let DatePart::Year = part {
        months / 12
    } else {
        months % 12
    }
}

fn day_time_value(d: IntervalDayTime, part: DatePart) -> (r: i32)
    ensures
        r == day_time_part(d, part),
{
    let ms = d.milliseconds;
    match part {
        DatePart::Week => d.days / 7,
        DatePart::Day => d.days,
        DatePart::Hour => ms / 3_600_000,
        DatePart::Minute => (ms / 60_000) % 60,
        DatePart::Second => (ms / 1_000) % 60,
        DatePart::Millisecond => ms % 60_000,
        DatePart::Microsecond => narrow_value((ms % 60_000) as i128 * 1_000),
        _ => narrow_value((ms % 60_000) as i128 * 1_000_000),
    }
}

fn month_day_nano_value(d: IntervalMonthDayNano, part: DatePart) -> (r: i32)
    ensures
        r == month_day_nano_part(d, part),
{
    let ns = d.nanoseconds;
    match part {
        DatePart::Year => d.months / 12,
        DatePart::Month => d.months % 12,
        DatePart::Week => d.days / 7,
        DatePart::Day => d.days,
        DatePart::Hour => narrow_value((ns / 3_600_000_000_000) as i128),
        DatePart::Minute => narrow_value(((ns / 60_000_000_000) % 60) as i128),
        DatePart::Second => narrow_value(((ns / 1_000_000_000) % 60) as i128),
        DatePart::Millisecond => narrow_value(((ns % 60_000_000_000) / 1_000_000) as i128),
        DatePart::Microsecond => narrow_value(((ns % 60_000_000_000) / 1_000) as i128),
        _ => narrow_value((ns % 60_000_000_000) as i128),
    }
}

fn nanos_in_part(part: DatePart) -> (r: i64)
    ensures
        r == nanos_per_part(part),
{
    match part {
        DatePart::Week => 604_800_000_000_000,
        DatePart::Day => 86_400_000_000_000,
        DatePart::Hour => 3_600_000_000_000,
        DatePart::Minute => 60_000_000_000,
        DatePart::Second => 1_000_000_000,
        DatePart::Millisecond => 1_000_000,
        DatePart::Microsecond => 1_000,
        _ => 1,
    }
}

fn duration_value(d: i64, unit: TimeUnit, part: DatePart) -> (r: i32)
    ensures
        r == duration_part(d, unit, part),
{
    proof {
        assert(nanos_per_unit(TimeUnit::Second) == 1_000_000_000);
        assert(nanos_per_unit(TimeUnit::Millisecond) == 1_000_000);
        assert(nanos_per_unit(TimeUnit::Microsecond) == 1_000);
        assert(nanos_per_unit(TimeUnit::Nanosecond) == 1);
    }
    let un: i64 = match unit {
        TimeUnit::Second => 1_000_000_000,
        TimeUnit::Millisecond => 1_000_000,
        TimeUnit::Microsecond => 1_000,
        TimeUnit::Nanosecond => 1,
    };
    let pn = nanos_in_part(part);
    assert(pn >= 1);
    if un >= pn {
        let f = un / pn;
        proof {
            vstd::arithmetic::div_mod::lemma_div_is_ordered(pn as int, un as int, pn as int);
            vstd::arithmetic::div_mod::lemma_div_by_self(pn as int);
            vstd::arithmetic::div_mod::lemma_div_is_ordered_by_denominator(un as int, 1, pn as int);
            assert(un as int / 1 == un as int);
            assert(1 <= f <= 1_000_000_000);
            assert(-9_223_372_036_854_775_808 * 1_000_000_000 <= d * f <= 9_223_372_036_854_775_807
                * 1_000_000_000) by (nonlinear_arith)
                requires
                    1 <= f <= 1_000_000_000,
                    i64::MIN <= d <= i64::MAX,
            ;
        }
        narrow_value(d as i128 * f as i128)
    } else {
        proof {
            vstd::arithmetic::div_mod::lemma_div_is_ordered(un as int, pn as int, un as int);
            vstd::arithmetic::div_mod::lemma_div_by_self(un as int);
        }
        narrow_value((d / (pn / un)) as i128)
    }
}

/// The part of a timestamp of `unit`s, in UTC or, given a zone name, in that
/// zone's local time; `None` when an instant is out of chrono's range.
pub open spec fn timestamp_element(
    v: i64,
    unit: TimeUnit,
    zone: Option<Seq<char>>,
    part: DatePart,
    r: Option<i32>,
) -> bool {
    let ups = units_per_second(unit);
    if unit is Second && is_subsecond_part(part) {
        r == Some(0i32)
    } else {
        match zone {
            None => civil_element(v as int / ups, (v as int % ups) * nanos_per_unit(unit), part, r),
            Some(name) => {
                let secs = v as int / ups;
                if !day_in_supported_range(secs / 86400) {
                    r is None
                } else {
                    civil_element(
                        secs + zone_offset(name, secs),
                        (v as int % ups) * nanos_per_unit(unit),
                        part,
                        r,
                    )
                }
            },
        }
    }
}

fn timestamp_civil(v: i64, unit: TimeUnit) -> (r: Option<CivilDateTime>)
    ensures
        civil_result(
            r,
            v as int / units_per_second(unit),
            (v as int % units_per_second(unit)) * nanos_per_unit(unit),
        ),
{
    match unit {
        TimeUnit::Second => {
            let r = timestamp_s_civil(v);
            proof {
                assert(units_per_second(unit) == 1);
                assert(nanos_per_unit(unit) == 1_000_000_000);
                assert(v as int / 1 == v as int);
                assert(v as int % 1 == 0);
                assert((v as int % 1) * 1_000_000_000 == 0);
            }
            r
        },
        TimeUnit::Millisecond => {
            let r = timestamp_ms_civil(v);
            proof {
                assert(units_per_second(unit) == 1_000);
                assert(nanos_per_unit(unit) == 1_000_000);
            }
            r
        },
        TimeUnit::Microsecond => {
            let r = timestamp_us_civil(v);
            proof {
                assert(units_per_second(unit) == 1_000_000);
                assert(nanos_per_unit(unit) == 1_000);
            }
            r
        },
        TimeUnit::Nanosecond => {
            let r = timestamp_ns_civil(v);
            proof {
                assert(units_per_second(unit) == 1_000_000_000);
                assert(nanos_per_unit(unit) == 1);
            }
            r
        },
    }
}

fn timestamp_value(v: i64, unit: TimeUnit, zone: Option<&TimeZone>, part: DatePart) -> (r: Option<i32>)
    ensures
        timestamp_element(
            v,
            unit,
            match zone {
                None => None,
                Some(z) => Some(z.name_view()),
            },
            part,
            r,
        ),
{
    let ups = unit.per_second();
    if let TimeUnit::Second = unit {
        match part {
            DatePart::Millisecond | DatePart::Microsecond | DatePart::Nanosecond => return Some(0),
            _ => {},
        }
    }
    match zone {
        None => part_of_civil(
            timestamp_civil(v, unit),
            part,
            Ghost(v as int / ups as int),
            Ghost((v as int % ups as int) * nanos_per_unit(unit)),
        ),
        Some(z) => {
            let secs = match v.checked_div_euclid(ups) {
                Some(s) => s,
                None => return None,
            };
            let offset = match z.offset_at(secs) {
                Some(o) => o,
                None => return None,
            };
            local_timestamp_part(v, unit, offset, part)
        },
    }
}

/// The part of a timestamp read at a given offset from UTC, in seconds: the
/// offset moves the whole seconds, the sub-second remainder is kept apart.
/// `None` when the local day is out of chrono's range.
pub fn local_timestamp_part(v: i64, unit: TimeUnit, offset_seconds: i32, part: DatePart) -> (r: Option<i32>)
    requires
        -86400 < offset_seconds < 86400,
    ensures
        civil_element(
            v as int / units_per_second(unit) + offset_seconds,
            (v as int % units_per_second(unit)) * nanos_per_unit(unit),
            part,
            r,
        ),
{
    let ups = unit.per_second();
    let npu: i64 = match unit {
        TimeUnit::Second => 1_000_000_000,
        TimeUnit::Millisecond => 1_000_000,
        TimeUnit::Microsecond => 1_000,
        TimeUnit::Nanosecond => 1,
    };
    proof {
        assert(units_per_second(TimeUnit::Second) == 1);
        assert(1_000_000_000int / 1 == 1_000_000_000int);
        assert(nanos_per_unit(TimeUnit::Second) == 1_000_000_000);
        assert(nanos_per_unit(TimeUnit::Millisecond) == 1_000_000);
        assert(nanos_per_unit(TimeUnit::Microsecond) == 1_000);
        assert(nanos_per_unit(TimeUnit::Nanosecond) == 1);
    }
    let secs = v.checked_div_euclid(ups);
    let sub = v.checked_rem_euclid(ups);
    let (secs, sub) = match (secs, sub) {
        (Some(q), Some(m)) => (q, m),
        _ => {
            return None;
        },
    };
    let nanos: u32 = (sub * npu) as u32;
    let local = match secs.checked_add(offset_seconds as i64) {
        Some(l) => l,
        None => {
            return None;
        },
    };
    let c = match timestamp_s_civil(local) {
        Some(c) => Some(
            CivilDateTime {
                year: c.year,
                month: c.month,
                day: c.day,
                ordinal: c.ordinal,
                weekday_from_monday: c.weekday_from_monday,
                iso_year: c.iso_year,
                iso_week: c.iso_week,
                hour: c.hour,
                minute: c.minute,
                second: c.second,
                nanosecond: nanos,
            },
        ),
        None => None,
    };
    part_of_civil(c, part, Ghost(local as int), Ghost(nanos as int))
}

pub open spec fn unsupported(part: DatePart, data_type: TemporalType) -> KernelError {
    KernelError::UnsupportedPart { part, data_type }
}

/// The parts an interval of months has.
pub open spec fn year_month_has(part: DatePart) -> bool {
    part is Year || part is Month
}

/// The parts a day-time interval has.
pub open spec fn day_time_has(part: DatePart) -> bool {
    part is Week || part is Day || is_time_part(part)
}

/// The parts a month-day-nano interval has.
pub open spec fn month_day_nano_has(part: DatePart) -> bool {
    part is Year || part is Month || part is Week || part is Day || is_time_part(part)
}

/// The parts a duration has.
pub open spec fn duration_has(part: DatePart) -> bool {
    part is Week || part is Day || is_time_part(part)
}

/// A column of integers mapped by a part function, or the error that the
/// encoding lacks the part.
pub open spec fn plain_outcome<T>(
    values: Seq<Option<T>>,
    has_part: bool,
    rel: spec_fn(T, Option<i32>) -> bool,
    part: DatePart,
    data_type: TemporalType,
    r: Result<PartArray, KernelError>,
) -> bool {
    if has_part {
        r matches Ok(PartArray::Int32(out)) && mapped_by(values, out@, rel)
    } else {
        r == Err::<PartArray, KernelError>(unsupported(part, data_type))
    }
}

/// What extracting `part` from `array` gives.
pub open spec fn date_part_outcome(array: TemporalArray, part: DatePart, r: Result<PartArray, KernelError>) -> bool
    decreases array,
{
    match array {
        TemporalArray::Date32(v) => plain_outcome(
            v@,
            true,
            |x: i32, y: Option<i32>| date32_element(x, part, y),
            part,
            TemporalType::Date32,
            r,
        ),
        TemporalArray::Date64(v) => plain_outcome(
            v@,
            true,
            |x: i64, y: Option<i32>| date64_element(x, part, y),
            part,
            TemporalType::Date64,
            r,
        ),
        TemporalArray::Time32Second(v) => plain_outcome(
            v@,
            is_time_part(part),
            |x: i32, y: Option<i32>| y == time_of_day_part(x as int, 1, part),
            part,
            TemporalType::Time32(TimeUnit::Second),
            r,
        ),
        TemporalArray::Time32Millisecond(v) => plain_outcome(
            v@,
            is_time_part(part),
            |x: i32, y: Option<i32>| y == time_of_day_part(x as int, 1_000, part),
            part,
            TemporalType::Time32(TimeUnit::Millisecond),
            r,
        ),
        TemporalArray::Time64Microsecond(v) => plain_outcome(
            v@,
            is_time_part(part),
            |x: i64, y: Option<i32>| y == time_of_day_part(x as int, 1_000_000, part),
            part,
            TemporalType::Time64(TimeUnit::Microsecond),
            r,
        ),
        TemporalArray::Time64Nanosecond(v) => plain_outcome(
            v@,
            is_time_part(part),
            |x: i64, y: Option<i32>| y == time_of_day_part(x as int, 1_000_000_000, part),
            part,
            TemporalType::Time64(TimeUnit::Nanosecond),
            r,
        ),
        TemporalArray::Timestamp { unit, values, timezone } => {
            let zone = match timezone {
                None => None,
                Some(name) => Some(name@),
            };
            if timezone is Some && !zone_name_is_valid(timezone->Some_0@) {
                r matches Err(KernelError::InvalidTimezone { name }) && name@ == timezone->Some_0@
            } else {
                plain_outcome(
                    values@,
                    true,
                    |x: i64, y: Option<i32>| timestamp_element(x, unit, zone, part, y),
                    part,
                    TemporalType::Timestamp(unit),
                    r,
                )
            }
        },
        TemporalArray::IntervalYearMonth(v) => plain_outcome(
            v@,
            year_month_has(part),
            |x: i32, y: Option<i32>| y == Some(year_month_part(x, part)),
            part,
            TemporalType::IntervalYearMonth,
            r,
        ),
        TemporalArray::IntervalDayTime(v) => plain_outcome(
            v@,
            day_time_has(part),
            |x: IntervalDayTime, y: Option<i32>| y == Some(day_time_part(x, part)),
            part,
            TemporalType::IntervalDayTime,
            r,
        ),
        TemporalArray::IntervalMonthDayNano(v) => plain_outcome(
            v@,
            month_day_nano_has(part),
            |x: IntervalMonthDayNano, y: Option<i32>| y == Some(month_day_nano_part(x, part)),
            part,
            TemporalType::IntervalMonthDayNano,
            r,
        ),
        TemporalArray::Duration { unit, values } => plain_outcome(
            values@,
            duration_has(part),
            |x: i64, y: Option<i32>| y == Some(duration_part(x, unit, part)),
            part,
            TemporalType::Duration(unit),
            r,
        ),
        TemporalArray::Dictionary { keys, values } => match r {
            Ok(PartArray::Dictionary { keys: k, values: out }) => k@ == keys@ && date_part_outcome(
                *values,
                part,
                Ok(*out),
            ),
            Ok(PartArray::Int32(_)) => false,
            Err(e) => date_part_outcome(*values, part, Err(e)),
        },
    }
}

fn copy_keys(keys: &Vec<Option<i64>>) -> (r: Vec<Option<i64>>)
    ensures
        r@ == keys@,
{
    let mut out: Vec<Option<i64>> = Vec::new();
    let mut i: usize = 0;
    while i < keys.len()
        invariant
            0 <= i <= keys@.len(),
            out@ == keys@.subrange(0, i as int),
        decreases keys@.len() - i,
    {
        out.push(keys[i]);
        i += 1;
        proof {
            assert(out@ =~= keys@.subrange(0, i as int));
        }
    }
    proof {
        assert(out@ =~= keys@);
    }
    out
}

/// Extracts `part` from every element of a temporal column. A dictionary
/// column is answered by extracting from its values and keeping its keys.
pub fn date_part(array: &TemporalArray, part: DatePart) -> (r: Result<PartArray, KernelError>)
    ensures
        date_part_outcome(*array, part, r),
    decreases array,
{
    match array {
        TemporalArray::Date32(v) => {
            let out = if time_part(part) {
                map_column(v, (|x: i32| -> (y: Option<i32>)
                    ensures
                        date32_element(x, part, y),
                    { Some(0i32) }), Ghost(|x: i32, y: Option<i32>| date32_element(x, part, y)))
            } else {
                map_column(v, (|x: i32| -> (y: Option<i32>)
                    ensures
                        date32_element(x, part, y),
                    { part_of_civil(date32_civil(x), part, Ghost(x as int * 86400), Ghost(0int)) }),
                    Ghost(|x: i32, y: Option<i32>| date32_element(x, part, y)))
            };
            Ok(PartArray::Int32(out))
        },
        TemporalArray::Date64(v) => {
            let out = map_column(v, (|x: i64| -> (y: Option<i32>)
                ensures
                    date64_element(x, part, y),
                {
                    part_of_civil(
                        date64_civil(x),
                        part,
                        Ghost(x as int / 1000),
                        Ghost((x as int % 1000) * 1_000_000),
                    )
                }), Ghost(|x: i64, y: Option<i32>| date64_element(x, part, y)));
            Ok(PartArray::Int32(out))
        },
        TemporalArray::Time32Second(v) => {
            if !time_part(part) {
                return Err(KernelError::UnsupportedPart { part, data_type: TemporalType::Time32(TimeUnit::Second) });
            }
            let out = map_column(v, (|x: i32| -> (y: Option<i32>)
                ensures
                    y == time_of_day_part(x as int, 1, part),
                { time_of_day_value(x as i64, 1, part) }),
                Ghost(|x: i32, y: Option<i32>| y == time_of_day_part(x as int, 1, part)));
            Ok(PartArray::Int32(out))
        },
        TemporalArray::Time32Millisecond(v) => {
            if !time_part(part) {
                return Err(KernelError::UnsupportedPart { part, data_type: TemporalType::Time32(TimeUnit::Millisecond) });
            }
            let out = map_column(v, (|x: i32| -> (y: Option<i32>)
                ensures
                    y == time_of_day_part(x as int, 1_000, part),
                { time_of_day_value(x as i64, 1_000, part) }),
                Ghost(|x: i32, y: Option<i32>| y == time_of_day_part(x as int, 1_000, part)));
            Ok(PartArray::Int32(out))
        },
        TemporalArray::Time64Microsecond(v) => {
            if !time_part(part) {
                return Err(KernelError::UnsupportedPart { part, data_type: TemporalType::Time64(TimeUnit::Microsecond) });
            }
            let out = map_column(v, (|x: i64| -> (y: Option<i32>)
                ensures
                    y == time_of_day_part(x as int, 1_000_000, part),
                { time_of_day_value(x, 1_000_000, part) }),
                Ghost(|x: i64, y: Option<i32>| y == time_of_day_part(x as int, 1_000_000, part)));
            Ok(PartArray::Int32(out))
        },
        TemporalArray::Time64Nanosecond(v) => {
            if !time_part(part) {
                return Err(KernelError::UnsupportedPart { part, data_type: TemporalType::Time64(TimeUnit::Nanosecond) });
            }
            let out = map_column(v, (|x: i64| -> (y: Option<i32>)
                ensures
                    y == time_of_day_part(x as int, 1_000_000_000, part),
                { time_of_day_value(x, 1_000_000_000, part) }),
                Ghost(|x: i64, y: Option<i32>| y == time_of_day_part(x as int, 1_000_000_000, part)));
            Ok(PartArray::Int32(out))
        },
        TemporalArray::Timestamp { unit, values, timezone } => timestamp_part(values, *unit, timezone, part),
        TemporalArray::IntervalYearMonth(v) => {
            match part {
                DatePart::Year | DatePart::Month => {},
                _ => return Err(KernelError::UnsupportedPart { part, data_type: TemporalType::IntervalYearMonth }),
            }
            let out = map_column(v, (|x: i32| -> (y: Option<i32>)
                ensures
                    y == Some(year_month_part(x, part)),
                { Some(year_month_value(x, part)) }),
                Ghost(|x: i32, y: Option<i32>| y == Some(year_month_part(x, part))));
            Ok(PartArray::Int32(out))
        },
        TemporalArray::IntervalDayTime(v) => {
            match part {
                DatePart::Week | DatePart::Day => {},
                _ => if !time_part(part) {
                    return Err(KernelError::UnsupportedPart { part, data_type: TemporalType::IntervalDayTime });
                },
            }
            let out = map_column(v, (|x: IntervalDayTime| -> (y: Option<i32>)
                ensures
                    y == Some(day_time_part(x, part)),
                { Some(day_time_value(x, part)) }),
                Ghost(|x: IntervalDayTime, y: Option<i32>| y == Some(day_time_part(x, part))));
            Ok(PartArray::Int32(out))
        },
        TemporalArray::IntervalMonthDayNano(v) => {
            match part {
                DatePart::Year | DatePart::Month | DatePart::Week | DatePart::Day => {},
                _ => if !time_part(part) {
                    return Err(KernelError::UnsupportedPart { part, data_type: TemporalType::IntervalMonthDayNano });
                },
            }
            let out = map_column(v, (|x: IntervalMonthDayNano| -> (y: Option<i32>)
                ensures
                    y == Some(month_day_nano_part(x, part)),
                { Some(month_day_nano_value(x, part)) }),
                Ghost(|x: IntervalMonthDayNano, y: Option<i32>| y == Some(month_day_nano_part(x, part))));
            Ok(PartArray::Int32(out))
        },
        TemporalArray::Duration { unit, values } => {
            let unit = *unit;
            match part {
                DatePart::Week | DatePart::Day => {},
                _ => if !time_part(part) {
                    return Err(KernelError::UnsupportedPart { part, data_type: TemporalType::Duration(unit) });
                },
            }
            let out = map_column(values, (|x: i64| -> (y: Option<i32>)
                ensures
                    y == Some(duration_part(x, unit, part)),
                { Some(duration_value(x, unit, part)) }),
                Ghost(|x: i64, y: Option<i32>| y == Some(duration_part(x, unit, part))));
            Ok(PartArray::Int32(out))
        },
        TemporalArray::Dictionary { keys, values } => {
            let inner = date_part(values, part);
            match inner {
                Ok(out) => Ok(PartArray::Dictionary { keys: copy_keys(keys), values: Box::new(out) }),
                Err(e) => Err(e),
            }
        },
    }
}

/// Extracts `part` from a timestamp column, read in its time zone if it has
/// one.
fn timestamp_part(
    values: &Vec<Option<i64>>,
    unit: TimeUnit,
    timezone: &Option<String>,
    part: DatePart,
) -> (r: Result<PartArray, KernelError>)
    ensures
        date_part_outcome(
            TemporalArray::Timestamp { unit, values: *values, timezone: *timezone },
            part,
            r,
        ),
{
    let zone_view: Ghost<Option<Seq<char>>> = Ghost(
        match timezone {
            None => None,
            Some(name) => Some(name@),
        },
    );
    let zone: Option<TimeZone> = match timezone {
        None => None,
        Some(name) => match TimeZone::parse(name.as_str()) {
            Some(z) => Some(z),
            None => {
                return Err(KernelError::InvalidTimezone { name: name.clone() });
            },
        },
    };
    let zref: Option<&TimeZone> = match &zone {
        None => None,
        Some(z) => Some(z),
    };
    let out = map_column(values, (|x: i64| -> (y: Option<i32>)
        ensures
            timestamp_element(
                x,
                unit,
                match zref {
                    None => None,
                    Some(z) => Some(z.name_view()),
                },
                part,
                y,
            ),
        { timestamp_value(x, unit, zref, part) }), Ghost(|x: i64, y: Option<i32>| timestamp_element(
            x,
            unit,
            match zref {
                None => None,
                Some(z) => Some(z.name_view()),
            },
            part,
            y,
        )));
    proof {
        assert forall|x: i64, y: Option<i32>| timestamp_element(
            x,
            unit,
            match zref {
                None => None,
                Some(z) => Some(z.name_view()),
            },
            part,
            y,
        ) implies timestamp_element(x, unit, zone_view@, part, y) by {}
    }
    Ok(PartArray::Int32(out))
}

proof fn lemma_civil_element_functional(secs: int, nanos: int, part: DatePart, r1: Option<i32>, r2: Option<i32>)
    requires
        civil_element(secs, nanos, part, r1),
        civil_element(secs, nanos, part, r2),
    ensures
        r1 == r2,
{
    if r1 is Some && r2 is Some {
        let c1 = choose|c: CivilDateTime| #[trigger]
            civil_of(c, secs, nanos) && r1->Some_0 == civil_part(c, part);
        let c2 = choose|c: CivilDateTime| #[trigger]
            civil_of(c, secs, nanos) && r2->Some_0 == civil_part(c, part);
        lemma_civil_unique(c1, c2, secs, nanos);
    }
}

/// Two extraction results hold the same values: the same integers, or
/// dictionaries of the same keys over the same values.
pub open spec fn same_parts(a: PartArray, b: PartArray) -> bool
    decreases a,
{
    match a {
        PartArray::Int32(x) => b matches PartArray::Int32(y) && x@ == y@,
        PartArray::Dictionary { keys: k1, values: v1 } => match b {
            PartArray::Dictionary { keys: k2, values: v2 } => k1@ == k2@ && same_parts(*v1, *v2),
            PartArray::Int32(_) => false,
        },
    }
}

/// Two extraction outcomes agree: both succeed with the same values, or
/// both fail with the same message.
pub open spec fn same_outcome(r1: Result<PartArray, KernelError>, r2: Result<PartArray, KernelError>) -> bool {
    match r1 {
        Ok(a) => r2 matches Ok(b) && same_parts(a, b),
        Err(e1) => r2 matches Err(e2) && message_text(e1) == message_text(e2),
    }
}

/// Extraction is a function of the column and the part: any two outcomes
/// that its contract admits agree.
pub proof fn lemma_date_part_functional(
    array: TemporalArray,
    part: DatePart,
    r1: Result<PartArray, KernelError>,
    r2: Result<PartArray, KernelError>,
)
    requires
        date_part_outcome(array, part, r1),
        date_part_outcome(array, part, r2),
    ensures
        same_outcome(r1, r2),
    decreases array,
{
    match array {
        TemporalArray::Dictionary { keys, values } => {
            match (r1, r2) {
                (Ok(PartArray::Dictionary { keys: k1, values: o1 }), Ok(PartArray::Dictionary { keys: k2, values: o2 })) => {
                    lemma_date_part_functional(*values, part, Ok(*o1), Ok(*o2));
                },
                (Ok(PartArray::Dictionary { keys: k1, values: o1 }), Err(e2)) => {
                    lemma_date_part_functional(*values, part, Ok(*o1), Err(e2));
                },
                (Err(e1), Ok(PartArray::Dictionary { keys: k2, values: o2 })) => {
                    lemma_date_part_functional(*values, part, Err(e1), Ok(*o2));
                },
                (Err(e1), Err(e2)) => {
                    lemma_date_part_functional(*values, part, Err(e1), Err(e2));
                },
                _ => {},
            }
        },
        _ => {
            if r1 is Ok && r2 is Ok {
                let o1 = r1->Ok_0->Int32_0;
                let o2 = r2->Ok_0->Int32_0;
                assert forall|i: int| 0 <= i < o1@.len() implies #[trigger] o1@[i] == o2@[i] by {
                    match array {
                        TemporalArray::Date32(v) => {
                            if v@[i] is Some && !is_time_part(part) {
                                lemma_civil_element_functional(
                                    v@[i]->Some_0 * 86400,
                                    0,
                                    part,
                                    o1@[i],
                                    o2@[i],
                                );
                            }
                        },
                        TemporalArray::Date64(v) => {
                            if v@[i] is Some {
                                let x = v@[i]->Some_0 as int;
                                lemma_civil_element_functional(
                                    x / 1000,
                                    (x % 1000) * 1_000_000,
                                    part,
                                    o1@[i],
                                    o2@[i],
                                );
                            }
                        },
                        TemporalArray::Timestamp { unit, values, timezone } => {
                            if values@[i] is Some && !(unit is Second && is_subsecond_part(part)) {
                                let x = values@[i]->Some_0 as int;
                                let ups = units_per_second(unit);
                                match timezone {
                                    None => {
                                        lemma_civil_element_functional(
                                            x / ups,
                                            (x % ups) * nanos_per_unit(unit),
                                            part,
                                            o1@[i],
                                            o2@[i],
                                        );
                                    },
                                    Some(name) => {
                                        if day_in_supported_range((x / ups) / 86400) {
                                            lemma_civil_element_functional(
                                                x / ups + zone_offset(name@, x / ups),
                                                (x % ups) * nanos_per_unit(unit),
                                                part,
                                                o1@[i],
                                                o2@[i],
                                            );
                                        }
                                    },
                                }
                            }
                        },
                        _ => {},
                    }
                }
                assert(o1@ =~= o2@);
            }
        },
    }
}

/// Extracting a part from a dictionary column agrees with extracting it from
/// the dictionary's values and keeping the keys: the two calls fail
/// together, with the same message, and otherwise the dictionary's result
/// holds the same keys over the same values.
pub proof fn lemma_dictionary_extract(
    keys: Vec<Option<i64>>,
    values: TemporalArray,
    part: DatePart,
    r: Result<PartArray, KernelError>,
    rv: Result<PartArray, KernelError>,
)
    requires
        date_part_outcome(TemporalArray::Dictionary { keys, values: Box::new(values) }, part, r),
        date_part_outcome(values, part, rv),
    ensures
        r is Ok <==> rv is Ok,
        r is Ok ==> r->Ok_0 is Dictionary,
        r matches Ok(PartArray::Dictionary { keys: k, values: out }) ==> k@ == keys@ && same_outcome(
            Ok(*out),
            rv,
        ),
        r is Err ==> same_outcome(r, rv),
{
    match r {
        Ok(PartArray::Dictionary { keys: k, values: out }) => {
            lemma_date_part_functional(values, part, Ok(*out), rv);
        },
        Ok(PartArray::Int32(_)) => {},
        Err(e) => {
            lemma_date_part_functional(values, part, Err(e), rv);
        },
    }
}

/// A Date32 column has no time of day: every sub-day part is zero for each
/// non-null day, and null for each null.
pub proof fn lemma_date32_time_parts_are_zero(
    values: Vec<Option<i32>>,
    part: DatePart,
    r: Result<PartArray, KernelError>,
)
    requires
        is_time_part(part),
        date_part_outcome(TemporalArray::Date32(values), part, r),
    ensures
        r matches Ok(PartArray::Int32(out)) && out@.len() == values@.len() && forall|i: int|
            0 <= i < values@.len() ==> #[trigger] out@[i] == if values@[i] is Some {
                Some(0i32)
            } else {
                None
            },
{
    let out = r->Ok_0->Int32_0;
    assert forall|i: int| 0 <= i < values@.len() implies #[trigger] out@[i] == if values@[i] is Some {
        Some(0i32)
    } else {
        None
    } by {
        if values@[i] is Some {
            assert(date32_element(values@[i]->Some_0, part, out@[i]));
        }
    }
}

/// A Time32 value in seconds outside `[0, 86400)` is null in the result,
/// whatever sub-day part is asked.
pub proof fn lemma_time32_outside_day_is_null(
    values: Vec<Option<i32>>,
    part: DatePart,
    r: Result<PartArray, KernelError>,
    i: int,
)
    requires
        date_part_outcome(TemporalArray::Time32Second(values), part, r),
        is_time_part(part),
        0 <= i < values@.len(),
        values@[i] matches Some(x) && (x < 0 || x >= 86400),
    ensures
        r matches Ok(PartArray::Int32(out)) && out@[i] is None,
{
}

/// The days field of a day-time interval alone decides its weeks and days,
/// and the milliseconds field alone decides every part below a day.
pub proof fn lemma_day_time_fields_independent(a: IntervalDayTime, b: IntervalDayTime, part: DatePart)
    ensures
        (part is Week || part is Day) && a.days == b.days ==> day_time_part(a, part)
            == day_time_part(b, part),
        is_time_part(part) && a.milliseconds == b.milliseconds ==> day_time_part(a, part)
            == day_time_part(b, part),
{
}

proof fn lemma_millis_of_day(x: int)
    ensures
        (x / 1000) % 86400 == (x % 86_400_000) / 1000,
        x % 1000 == (x % 86_400_000) % 1000,
        0 <= x % 86_400_000 < 86_400_000,
{
    let q = x / 86_400_000;
    let m = x % 86_400_000;
    lemma_fundamental_div_mod(x, 86_400_000);
    lemma_mod_bound(x, 86_400_000);
    lemma_fundamental_div_mod(m, 1000);
    lemma_mod_pos_bound(m, 1000);
    lemma_div_pos_is_pos(m, 1000);
    assert(m / 1000 < 86400) by {
        lemma_div_is_ordered(m, 86_399_999, 1000);
    }
    assert(x == (86400 * q + m / 1000) * 1000 + m % 1000) by (nonlinear_arith)
        requires
            x == 86_400_000 * q + m,
            m == 1000 * (m / 1000) + m % 1000,
    ;
    lemma_fundamental_div_mod_converse(x, 1000, 86400 * q + m / 1000, m % 1000);
    assert(x / 1000 == q * 86400 + m / 1000);
    lemma_fundamental_div_mod_converse(x / 1000, 86400, q, m / 1000);
}

/// Each sub-day part of a Date64 value is that part of its millisecond of
/// the day.
pub proof fn lemma_date64_time_parts(
    values: Vec<Option<i64>>,
    part: DatePart,
    r: Result<PartArray, KernelError>,
    i: int,
)
    requires
        is_time_part(part),
        date_part_outcome(TemporalArray::Date64(values), part, r),
        0 <= i < values@.len(),
        values@[i] is Some,
        r matches Ok(PartArray::Int32(out)) && out@[i] is Some,
    ensures
        r->Ok_0->Int32_0@[i] == time_of_day_part(values@[i]->Some_0 as int % 86_400_000, 1000, part),
{
    let out = r->Ok_0->Int32_0;
    let x = values@[i]->Some_0 as int;
    assert(date64_element(values@[i]->Some_0, part, out@[i]));
    let c = choose|c: CivilDateTime| #[trigger]
        civil_of(c, x / 1000, (x % 1000) * 1_000_000) && out@[i]->Some_0 == civil_part(c, part);
    let m = x % 86_400_000;
    lemma_millis_of_day(x);
    lemma_mod_bound(x, 1000);
    lemma_div_pos_is_pos(m, 1000);
    lemma_div_denominator(m, 1000, 3600);
    lemma_div_denominator(m, 3600, 1000);
    lemma_div_denominator(m, 1000, 60);
    lemma_div_denominator(m, 60, 1000);
    let ms = x % 1000;
    assert((ms * 1_000_000) / 1_000_000 == ms) by {
        lemma_div_multiples_vanish(ms, 1_000_000);
    }
    assert((ms * 1_000_000) / 1_000 == ms * 1000) by {
        lemma_div_multiples_vanish(ms * 1000, 1_000);
    }
    assert(ms * 1_000 / 1_000 == ms) by {
        lemma_div_multiples_vanish(ms, 1_000);
    }
    assert(ms * 1_000_000_000 / 1_000 == ms * 1_000_000) by {
        lemma_div_multiples_vanish(ms * 1_000_000, 1_000);
    }
    assert(m / 1000 / 3600 < 24) by {
        lemma_div_is_ordered(m / 1000, 86399, 3600);
    }
}

} // verus!
