use arrow_kernels::error::KernelError;
use arrow_kernels::temporal::{
    date_part, local_timestamp_part, DatePart, IntervalDayTime, IntervalMonthDayNano, PartArray,
    TemporalArray,
    TimeUnit,
};

const MILLISECONDS: i64 = 1_000;
const NANOSECONDS: i64 = 1_000_000_000;
const MILLISECONDS_IN_DAY: i64 = 86_400_000;
const NANOSECONDS_IN_DAY: i64 = 86_400_000_000_000;

/// The extracted integers of a plain (non-dictionary) result.
fn plain(r: PartArray) -> Vec<Option<i32>> {
    match r {
        PartArray::Int32(v) => v,
        PartArray::Dictionary { .. } => panic!("expected a plain column"),
    }
}

/// The keys and extracted integers of a dictionary result.
fn dictionary(r: PartArray) -> (Vec<Option<i64>>, Vec<Option<i32>>) {
    match r {
        PartArray::Dictionary { keys, values } => (keys, plain(*values)),
        PartArray::Int32(_) => panic!("expected a dictionary"),
    }
}

fn date_part_primitive(a: &TemporalArray, part: DatePart) -> Result<Vec<Option<i32>>, KernelError> {
    date_part(a, part).map(plain)
}

/// Like a columnar array's `value`: a null slot reads as zero.
fn value(b: &[Option<i32>], i: usize) -> i32 {
    b[i].unwrap_or(0)
}

fn is_valid(b: &[Option<i32>], i: usize) -> bool {
    b[i].is_some()
}

fn all_some<T: Copy>(v: &[T]) -> Vec<Option<T>> {
    v.iter().map(|x| Some(*x)).collect()
}

fn timestamps(unit: TimeUnit, v: &[i64], tz: Option<&str>) -> TemporalArray {
    TemporalArray::Timestamp { unit, values: all_some(v), timezone: tz.map(|s| s.to_string()) }
}

fn dict(keys: Vec<Option<i64>>, values: TemporalArray) -> TemporalArray {
    TemporalArray::Dictionary { keys, values: Box::new(values) }
}

fn key_values(k: &[i64]) -> Vec<Option<i64>> {
    all_some(k)
}

#[test]
fn test_temporal_array_date64_hour() {
    let a = TemporalArray::Date64(vec![Some(1514764800000), None, Some(1550636625000)]);
    let b = date_part_primitive(&a, DatePart::Hour).unwrap();
    assert_eq!(0, value(&b, 0));
    assert!(!is_valid(&b, 1));
    assert_eq!(4, value(&b, 2));
}

#[test]
fn test_temporal_array_date32_hour() {
    let a = TemporalArray::Date32(vec![Some(15147), None, Some(15148)]);
    let b = date_part_primitive(&a, DatePart::Hour).unwrap();
    assert_eq!(0, value(&b, 0));
    assert!(!is_valid(&b, 1));
    assert_eq!(0, value(&b, 2));
}

#[test]
fn test_temporal_array_time32_second_hour() {
    let a = TemporalArray::Time32Second(all_some(&[37800, 86339]));
    let b = date_part_primitive(&a, DatePart::Hour).unwrap();
    assert_eq!(10, value(&b, 0));
    assert_eq!(23, value(&b, 1));
}

#[test]
fn test_temporal_array_time64_micro_hour() {
    let a = TemporalArray::Time64Microsecond(all_some(&[37800000000, 86339000000]));
    let b = date_part_primitive(&a, DatePart::Hour).unwrap();
    assert_eq!(10, value(&b, 0));
    assert_eq!(23, value(&b, 1));
}

#[test]
fn test_temporal_array_timestamp_micro_hour() {
    let a = timestamps(TimeUnit::Microsecond, &[37800000000, 86339000000], None);
    let b = date_part_primitive(&a, DatePart::Hour).unwrap();
    assert_eq!(10, value(&b, 0));
    assert_eq!(23, value(&b, 1));
}

#[test]
fn test_temporal_array_date64_year() {
    let a = TemporalArray::Date64(vec![Some(1514764800000), None, Some(1550636625000)]);
    let b = date_part_primitive(&a, DatePart::Year).unwrap();
    assert_eq!(2018, value(&b, 0));
    assert!(!is_valid(&b, 1));
    assert_eq!(2019, value(&b, 2));
}

#[test]
fn test_temporal_array_date32_year() {
    let a = TemporalArray::Date32(vec![Some(15147), None, Some(15448)]);
    let b = date_part_primitive(&a, DatePart::Year).unwrap();
    assert_eq!(2011, value(&b, 0));
    assert!(!is_valid(&b, 1));
    assert_eq!(2012, value(&b, 2));
}

#[test]
fn test_temporal_array_date64_quarter() {
    // 1514764800000 -> 2018-01-01, 1566275025000 -> 2019-08-20
    let a = TemporalArray::Date64(vec![Some(1514764800000), None, Some(1566275025000)]);
    let b = date_part_primitive(&a, DatePart::Quarter).unwrap();
    assert_eq!(1, value(&b, 0));
    assert!(!is_valid(&b, 1));
    assert_eq!(3, value(&b, 2));
}

#[test]
fn test_temporal_array_date32_quarter() {
    let a = TemporalArray::Date32(vec![Some(1), None, Some(300)]);
    let b = date_part_primitive(&a, DatePart::Quarter).unwrap();
    assert_eq!(1, value(&b, 0));
    assert!(!is_valid(&b, 1));
    assert_eq!(4, value(&b, 2));
}

#[test]
fn test_temporal_array_timestamp_quarter_with_timezone() {
    let a = timestamps(TimeUnit::Second, &[86400 * 90], Some("+00:00"));
    let b = date_part_primitive(&a, DatePart::Quarter).unwrap();
    assert_eq!(2, value(&b, 0));
    let a = timestamps(TimeUnit::Second, &[86400 * 90], Some("-10:00"));
    let b = date_part_primitive(&a, DatePart::Quarter).unwrap();
    assert_eq!(1, value(&b, 0));
}

#[test]
fn test_temporal_array_date64_month() {
    // 1514764800000 -> 2018-01-01, 1550636625000 -> 2019-02-20
    let a = TemporalArray::Date64(vec![Some(1514764800000), None, Some(1550636625000)]);
    let b = date_part_primitive(&a, DatePart::Month).unwrap();
    assert_eq!(1, value(&b, 0));
    assert!(!is_valid(&b, 1));
    assert_eq!(2, value(&b, 2));
}

#[test]
fn test_temporal_array_date32_month() {
    let a = TemporalArray::Date32(vec![Some(1), None, Some(31)]);
    let b = date_part_primitive(&a, DatePart::Month).unwrap();
    assert_eq!(1, value(&b, 0));
    assert!(!is_valid(&b, 1));
    assert_eq!(2, value(&b, 2));
}

#[test]
fn test_temporal_array_timestamp_month_with_timezone() {
    let a = timestamps(TimeUnit::Second, &[86400 * 31], Some("+00:00"));
    let b = date_part_primitive(&a, DatePart::Month).unwrap();
    assert_eq!(2, value(&b, 0));
    let a = timestamps(TimeUnit::Second, &[86400 * 31], Some("-10:00"));
    let b = date_part_primitive(&a, DatePart::Month).unwrap();
    assert_eq!(1, value(&b, 0));
}

#[test]
fn test_temporal_array_timestamp_day_with_timezone() {
    let a = timestamps(TimeUnit::Second, &[86400], Some("+00:00"));
    let b = date_part_primitive(&a, DatePart::Day).unwrap();
    assert_eq!(2, value(&b, 0));
    let a = timestamps(TimeUnit::Second, &[86400], Some("-10:00"));
    let b = date_part_primitive(&a, DatePart::Day).unwrap();
    assert_eq!(1, value(&b, 0));
}

#[test]
fn test_temporal_array_date64_weekday() {
    // 2018-01-01 (Monday), 2019-02-20 (Wednesday)
    let a = TemporalArray::Date64(vec![Some(1514764800000), None, Some(1550636625000)]);
    let b = date_part_primitive(&a, DatePart::DayOfWeekMonday0).unwrap();
    assert_eq!(0, value(&b, 0));
    assert!(!is_valid(&b, 1));
    assert_eq!(2, value(&b, 2));
}

#[test]
fn test_temporal_array_date64_weekday0() {
    // 2017-01-01 (Sunday), 2018-01-01 (Monday), 2019-02-20 (Wednesday)
    let a = TemporalArray::Date64(vec![
        Some(1483228800000),
        None,
        Some(1514764800000),
        Some(1550636625000),
    ]);
    let b = date_part_primitive(&a, DatePart::DayOfWeekSunday0).unwrap();
    assert_eq!(0, value(&b, 0));
    assert!(!is_valid(&b, 1));
    assert_eq!(1, value(&b, 2));
    assert_eq!(3, value(&b, 3));
}

#[test]
fn test_temporal_array_date64_day() {
    let a = TemporalArray::Date64(vec![Some(1514764800000), None, Some(1550636625000)]);
    let b = date_part_primitive(&a, DatePart::Day).unwrap();
    assert_eq!(1, value(&b, 0));
    assert!(!is_valid(&b, 1));
    assert_eq!(20, value(&b, 2));
}

#[test]
fn test_temporal_array_date32_day() {
    let a = TemporalArray::Date32(vec![Some(0), None, Some(31)]);
    let b = date_part_primitive(&a, DatePart::Day).unwrap();
    assert_eq!(1, value(&b, 0));
    assert!(!is_valid(&b, 1));
    assert_eq!(1, value(&b, 2));
}

#[test]
fn test_temporal_array_date64_doy() {
    let a = TemporalArray::Date64(vec![
        Some(1483228800000),
        Some(1514764800000),
        None,
        Some(1550636625000),
    ]);
    let b = date_part_primitive(&a, DatePart::DayOfYear).unwrap();
    assert_eq!(1, value(&b, 0));
    assert_eq!(1, value(&b, 1));
    assert!(!is_valid(&b, 2));
    assert_eq!(51, value(&b, 3));
}

#[test]
fn test_temporal_array_timestamp_micro_year() {
    let a = TemporalArray::Timestamp {
        unit: TimeUnit::Microsecond,
        values: vec![Some(1612025847000000), None, Some(1722015847000000)],
        timezone: None,
    };
    let b = date_part_primitive(&a, DatePart::Year).unwrap();
    assert_eq!(2021, value(&b, 0));
    assert!(!is_valid(&b, 1));
    assert_eq!(2024, value(&b, 2));
}

#[test]
fn test_temporal_array_date64_minute() {
    let a = TemporalArray::Date64(vec![Some(1514764800000), None, Some(1550636625000)]);
    let b = date_part_primitive(&a, DatePart::Minute).unwrap();
    assert_eq!(0, value(&b, 0));
    assert!(!is_valid(&b, 1));
    assert_eq!(23, value(&b, 2));
}

#[test]
fn test_temporal_array_timestamp_micro_minute() {
    let a = TemporalArray::Timestamp {
        unit: TimeUnit::Microsecond,
        values: vec![Some(1612025847000000), None, Some(1722015847000000)],
        timezone: None,
    };
    let b = date_part_primitive(&a, DatePart::Minute).unwrap();
    assert_eq!(57, value(&b, 0));
    assert!(!is_valid(&b, 1));
    assert_eq!(44, value(&b, 2));
}

#[test]
fn test_temporal_array_date32_week() {
    let a = TemporalArray::Date32(vec![Some(0), None, Some(7)]);
    let b = date_part_primitive(&a, DatePart::Week).unwrap();
    assert_eq!(1, value(&b, 0));
    assert!(!is_valid(&b, 1));
    assert_eq!(2, value(&b, 2));
}

#[test]
fn test_temporal_array_date64_week() {
    // 2022-03-01, 2022-01-03, 2022-01-01
    let a = TemporalArray::Date64(vec![
        Some(1646116175000),
        None,
        Some(1641171600000),
        Some(1640998800000),
    ]);
    let b = date_part_primitive(&a, DatePart::Week).unwrap();
    assert_eq!(9, value(&b, 0));
    assert!(!is_valid(&b, 1));
    assert_eq!(1, value(&b, 2));
    assert_eq!(52, value(&b, 3));
}

#[test]
fn test_temporal_array_timestamp_micro_week() {
    // 2021-01-30, 2024-07-27
    let a = TemporalArray::Timestamp {
        unit: TimeUnit::Microsecond,
        values: vec![Some(1612025847000000), None, Some(1722015847000000)],
        timezone: None,
    };
    let b = date_part_primitive(&a, DatePart::Week).unwrap();
    assert_eq!(4, value(&b, 0));
    assert!(!is_valid(&b, 1));
    assert_eq!(30, value(&b, 2));
}

#[test]
fn test_temporal_array_date64_second() {
    let a = TemporalArray::Date64(vec![Some(1514764800000), None, Some(1550636625000)]);
    let b = date_part_primitive(&a, DatePart::Second).unwrap();
    assert_eq!(0, value(&b, 0));
    assert!(!is_valid(&b, 1));
    assert_eq!(45, value(&b, 2));
}

#[test]
fn test_temporal_array_timestamp_micro_second() {
    let a = TemporalArray::Timestamp {
        unit: TimeUnit::Microsecond,
        values: vec![Some(1612025847000000), None, Some(1722015847000000)],
        timezone: None,
    };
    let b = date_part_primitive(&a, DatePart::Second).unwrap();
    assert_eq!(27, value(&b, 0));
    assert!(!is_valid(&b, 1));
    assert_eq!(7, value(&b, 2));
}

#[test]
fn test_temporal_array_timestamp_second_with_timezone() {
    let a = timestamps(TimeUnit::Second, &[10, 20], Some("+00:00"));
    let b = date_part_primitive(&a, DatePart::Second).unwrap();
    assert_eq!(10, value(&b, 0));
    assert_eq!(20, value(&b, 1));
}

#[test]
fn test_temporal_array_timestamp_minute_with_timezone() {
    let a = timestamps(TimeUnit::Second, &[0, 60], Some("+00:50"));
    let b = date_part_primitive(&a, DatePart::Minute).unwrap();
    assert_eq!(50, value(&b, 0));
    assert_eq!(51, value(&b, 1));
}

#[test]
fn test_temporal_array_timestamp_minute_with_negative_timezone() {
    let a = timestamps(TimeUnit::Second, &[60 * 55], Some("-00:50"));
    let b = date_part_primitive(&a, DatePart::Minute).unwrap();
    assert_eq!(5, value(&b, 0));
}

#[test]
fn test_temporal_array_timestamp_hour_with_timezone() {
    let a = timestamps(TimeUnit::Second, &[60 * 60 * 10], Some("+01:00"));
    let b = date_part_primitive(&a, DatePart::Hour).unwrap();
    assert_eq!(11, value(&b, 0));
}

#[test]
fn test_temporal_array_timestamp_hour_with_timezone_without_colon() {
    let a = timestamps(TimeUnit::Second, &[60 * 60 * 10], Some("+0100"));
    let b = date_part_primitive(&a, DatePart::Hour).unwrap();
    assert_eq!(11, value(&b, 0));
}

#[test]
fn test_temporal_array_timestamp_hour_with_timezone_without_minutes() {
    let a = timestamps(TimeUnit::Second, &[60 * 60 * 10], Some("+01"));
    let b = date_part_primitive(&a, DatePart::Hour).unwrap();
    assert_eq!(11, value(&b, 0));
}

#[test]
fn test_temporal_array_timestamp_hour_with_timezone_without_initial_sign() {
    let a = timestamps(TimeUnit::Second, &[60 * 60 * 10], Some("0100"));
    let err = date_part_primitive(&a, DatePart::Hour).unwrap_err().message();
    assert!(err.contains("Invalid timezone"), "{}", err);
}

#[test]
fn test_temporal_array_timestamp_hour_with_timezone_with_only_colon() {
    let a = timestamps(TimeUnit::Second, &[60 * 60 * 10], Some("01:00"));
    let err = date_part_primitive(&a, DatePart::Hour).unwrap_err().message();
    assert!(err.contains("Invalid timezone"), "{}", err);
}

#[test]
fn test_temporal_array_timestamp_week_without_timezone() {
    // Thursday (week 1), Monday (week 2), Sunday (week 1)
    let a = timestamps(TimeUnit::Second, &[0, 86400 * 4, 86400 * 4 - 1], None);
    let b = date_part_primitive(&a, DatePart::Week).unwrap();
    assert_eq!(1, value(&b, 0));
    assert_eq!(2, value(&b, 1));
    assert_eq!(1, value(&b, 2));
}

#[test]
fn test_temporal_array_timestamp_week_with_timezone() {
    // in +01:00: Thursday (week 1), Monday (week 2), Monday 00:59:59 (week 2)
    let a = timestamps(TimeUnit::Second, &[0, 86400 * 4, 86400 * 4 - 1], Some("+01:00"));
    let b = date_part_primitive(&a, DatePart::Week).unwrap();
    assert_eq!(1, value(&b, 0));
    assert_eq!(2, value(&b, 1));
    assert_eq!(2, value(&b, 2));
}

#[test]
fn test_hour_minute_second_dictionary_array() {
    let a = timestamps(
        TimeUnit::Second,
        &[60 * 60 * 10 + 61, 60 * 60 * 20 + 122, 60 * 60 * 30 + 183],
        Some("+01:00"),
    );
    let keys = key_values(&[0, 0, 1, 2, 1]);
    let d = dict(keys.clone(), a);

    let (k, v) = dictionary(date_part(&d, DatePart::Hour).unwrap());
    assert_eq!(k, keys);
    assert_eq!(v, all_some(&[11, 21, 7]));

    let (k, v) = dictionary(date_part(&d, DatePart::Minute).unwrap());
    let (k_old, v_old) = dictionary(date_part(&d, DatePart::Minute).unwrap());
    assert_eq!(k, keys);
    assert_eq!(v, all_some(&[1, 2, 3]));
    assert_eq!(k_old, keys);
    assert_eq!(v_old, all_some(&[1, 2, 3]));

    let (k, v) = dictionary(date_part(&d, DatePart::Second).unwrap());
    let (k_old, v_old) = dictionary(date_part(&d, DatePart::Second).unwrap());
    assert_eq!(k, keys);
    assert_eq!(v, all_some(&[1, 2, 3]));
    assert_eq!(k_old, keys);
    assert_eq!(v_old, all_some(&[1, 2, 3]));

    // the values of a seconds timestamp have no sub-second part
    let (k, v) = dictionary(date_part(&d, DatePart::Nanosecond).unwrap());
    assert_eq!(k, keys);
    assert_eq!(resolve(&k, &v), all_some(&[0, 0, 0, 0, 0]));
}

#[test]
fn test_year_dictionary_array() {
    let a = TemporalArray::Date64(vec![Some(1514764800000), Some(1550636625000)]);
    let keys = key_values(&[0, 1, 1, 0]);
    let d = dict(keys.clone(), a);
    let (k, v) = dictionary(date_part(&d, DatePart::Year).unwrap());
    assert_eq!(k, keys);
    let years: Vec<i32> = k.iter().map(|i| v[i.unwrap() as usize].unwrap()).collect();
    assert_eq!(years, vec![2018, 2019, 2019, 2018]);
}

#[test]
fn test_quarter_month_dictionary_array() {
    // 2018-01-01, 2019-08-20
    let a = TemporalArray::Date64(vec![Some(1514764800000), Some(1566275025000)]);
    let keys = key_values(&[0, 1, 1, 0]);
    let d = dict(keys.clone(), a);

    let (k, v) = dictionary(date_part(&d, DatePart::Quarter).unwrap());
    assert_eq!(k, keys);
    let quarters: Vec<i32> = k.iter().map(|i| v[i.unwrap() as usize].unwrap()).collect();
    assert_eq!(quarters, vec![1, 3, 3, 1]);

    let (k, v) = dictionary(date_part(&d, DatePart::Month).unwrap());
    assert_eq!(k, keys);
    let months: Vec<i32> = k.iter().map(|i| v[i.unwrap() as usize].unwrap()).collect();
    assert_eq!(months, vec![1, 8, 8, 1]);
}

/// Looks each key up in the extracted values, a null key giving null.
fn resolve(keys: &[Option<i64>], values: &[Option<i32>]) -> Vec<Option<i32>> {
    keys.iter().map(|k| k.and_then(|i| values[i as usize])).collect()
}

#[test]
fn test_num_days_from_monday_sunday_day_doy_week_dictionary_array() {
    // 2018-01-01 (Monday), 2019-02-20 (Wednesday)
    let a = TemporalArray::Date64(vec![Some(1514764800000), Some(1550636625000)]);
    let keys = vec![Some(0), Some(1), Some(1), Some(0), None];
    let d = dict(keys.clone(), a);

    let (k, v) = dictionary(date_part(&d, DatePart::DayOfWeekMonday0).unwrap());
    assert_eq!(k, keys);
    assert_eq!(resolve(&k, &v), vec![Some(0), Some(2), Some(2), Some(0), None]);

    let (k, v) = dictionary(date_part(&d, DatePart::DayOfWeekSunday0).unwrap());
    assert_eq!(resolve(&k, &v), vec![Some(1), Some(3), Some(3), Some(1), None]);

    let (k, v) = dictionary(date_part(&d, DatePart::Day).unwrap());
    assert_eq!(resolve(&k, &v), vec![Some(1), Some(20), Some(20), Some(1), None]);

    let (k, v) = dictionary(date_part(&d, DatePart::DayOfYear).unwrap());
    assert_eq!(resolve(&k, &v), vec![Some(1), Some(51), Some(51), Some(1), None]);

    let (k, v) = dictionary(date_part(&d, DatePart::Week).unwrap());
    assert_eq!(resolve(&k, &v), vec![Some(1), Some(8), Some(8), Some(1), None]);
}

#[test]
fn test_temporal_array_date64_nanosecond() {
    // 2022-11-01T18:52:01.453Z
    let a = TemporalArray::Date64(vec![None, Some(1667328721453)]);
    let b = date_part_primitive(&a, DatePart::Nanosecond).unwrap();
    assert!(!is_valid(&b, 0));
    assert_eq!(453_000_000, value(&b, 1));

    let keys = vec![Some(0), Some(1), Some(1)];
    let d = dict(keys.clone(), a);
    let (k, v) = dictionary(date_part(&d, DatePart::Nanosecond).unwrap());
    assert_eq!(k, keys);
    assert_eq!(v, vec![None, Some(453_000_000)]);
}

#[test]
fn test_temporal_array_date64_microsecond() {
    let a = TemporalArray::Date64(vec![None, Some(1667328721453)]);
    let b = date_part_primitive(&a, DatePart::Microsecond).unwrap();
    assert!(!is_valid(&b, 0));
    assert_eq!(453_000, value(&b, 1));

    let keys = vec![Some(0), Some(1), Some(1)];
    let d = dict(keys.clone(), a);
    let (k, v) = dictionary(date_part(&d, DatePart::Microsecond).unwrap());
    assert_eq!(k, keys);
    assert_eq!(v, vec![None, Some(453_000)]);
}

#[test]
fn test_temporal_array_date64_millisecond() {
    let a = TemporalArray::Date64(vec![None, Some(1667328721453)]);
    let b = date_part_primitive(&a, DatePart::Millisecond).unwrap();
    assert!(!is_valid(&b, 0));
    assert_eq!(453, value(&b, 1));

    let keys = vec![Some(0), Some(1), Some(1)];
    let d = dict(keys.clone(), a);
    let (k, v) = dictionary(date_part(&d, DatePart::Millisecond).unwrap());
    assert_eq!(k, keys);
    assert_eq!(v, vec![None, Some(453)]);
}

#[test]
fn test_temporal_array_time64_nanoseconds() {
    // 23:32:50.123456789
    let input = TemporalArray::Time64Nanosecond(vec![Some(84_770_123_456_789)]);
    let expected = [
        (DatePart::Hour, 23),
        (DatePart::Minute, 32),
        (DatePart::Second, 50),
        (DatePart::Millisecond, 123),
        (DatePart::Microsecond, 123_456),
        (DatePart::Nanosecond, 123_456_789),
    ];
    for (part, want) in expected {
        let actual = date_part_primitive(&input, part).unwrap();
        assert_eq!(want, value(&actual, 0));
    }

    // invalid values should turn into null
    let input = TemporalArray::Time64Nanosecond(vec![
        Some(-1),
        Some(86_400_000_000_000),
        Some(86_401_000_000_000),
        None,
    ]);
    let actual = date_part_primitive(&input, DatePart::Hour).unwrap();
    assert_eq!(actual, vec![None, None, None, None]);
}

#[test]
fn test_temporal_array_time64_microseconds() {
    // 23:32:50.123456
    let input = TemporalArray::Time64Microsecond(vec![Some(84_770_123_456)]);
    let expected = [
        (DatePart::Hour, 23),
        (DatePart::Minute, 32),
        (DatePart::Second, 50),
        (DatePart::Millisecond, 123),
        (DatePart::Microsecond, 123_456),
        (DatePart::Nanosecond, 123_456_000),
    ];
    for (part, want) in expected {
        let actual = date_part_primitive(&input, part).unwrap();
        assert_eq!(want, value(&actual, 0));
    }

    let input = TemporalArray::Time64Microsecond(vec![
        Some(-1),
        Some(86_400_000_000),
        Some(86_401_000_000),
        None,
    ]);
    let actual = date_part_primitive(&input, DatePart::Hour).unwrap();
    assert_eq!(actual, vec![None, None, None, None]);
}

#[test]
fn test_temporal_array_time32_milliseconds() {
    // 23:32:50.123
    let input = TemporalArray::Time32Millisecond(vec![Some(84_770_123)]);
    let expected = [
        (DatePart::Hour, 23),
        (DatePart::Minute, 32),
        (DatePart::Second, 50),
        (DatePart::Millisecond, 123),
        (DatePart::Microsecond, 123_000),
        (DatePart::Nanosecond, 123_000_000),
    ];
    for (part, want) in expected {
        let actual = date_part_primitive(&input, part).unwrap();
        assert_eq!(want, value(&actual, 0));
    }

    let input =
        TemporalArray::Time32Millisecond(vec![Some(-1), Some(86_400_000), Some(86_401_000), None]);
    let actual = date_part_primitive(&input, DatePart::Hour).unwrap();
    assert_eq!(actual, vec![None, None, None, None]);
}

#[test]
fn test_temporal_array_time32_seconds() {
    // 23:32:50
    let input = TemporalArray::Time32Second(all_some(&[84_770]));
    let expected = [
        (DatePart::Hour, 23),
        (DatePart::Minute, 32),
        (DatePart::Second, 50),
        (DatePart::Millisecond, 0),
        (DatePart::Microsecond, 0),
        (DatePart::Nanosecond, 0),
    ];
    for (part, want) in expected {
        let actual = date_part_primitive(&input, part).unwrap();
        assert_eq!(want, value(&actual, 0));
    }

    let input = TemporalArray::Time32Second(vec![Some(-1), Some(86_400), Some(86_401), None]);
    let actual = date_part_primitive(&input, DatePart::Hour).unwrap();
    assert_eq!(actual, vec![None, None, None, None]);
}

fn ensure_returns_error(array: &TemporalArray, data_type: &str, invalid_parts: &[DatePart]) {
    for part in invalid_parts {
        let err = date_part(array, *part).unwrap_err();
        let expected = format!("Compute error: {part:?} does not support: {data_type}");
        assert_eq!(expected, err.message());
    }
}

#[test]
fn test_temporal_array_time_invalid_parts() {
    let invalid_parts = [
        DatePart::Quarter,
        DatePart::Year,
        DatePart::Month,
        DatePart::Week,
        DatePart::Day,
        DatePart::DayOfWeekSunday0,
        DatePart::DayOfWeekMonday0,
        DatePart::DayOfYear,
    ];
    ensure_returns_error(&TemporalArray::Time32Second(vec![Some(0)]), "Time32(Second)", &invalid_parts);
    ensure_returns_error(
        &TemporalArray::Time32Millisecond(vec![Some(0)]),
        "Time32(Millisecond)",
        &invalid_parts,
    );
    ensure_returns_error(
        &TemporalArray::Time64Microsecond(vec![Some(0)]),
        "Time64(Microsecond)",
        &invalid_parts,
    );
    ensure_returns_error(
        &TemporalArray::Time64Nanosecond(vec![Some(0)]),
        "Time64(Nanosecond)",
        &invalid_parts,
    );
}

#[test]
fn test_interval_year_month_array() {
    let input = TemporalArray::IntervalYearMonth(all_some(&[0, 5, 24]));

    let actual = date_part_primitive(&input, DatePart::Year).unwrap();
    assert_eq!(0, value(&actual, 0));
    assert_eq!(0, value(&actual, 1));
    assert_eq!(2, value(&actual, 2));

    let actual = date_part_primitive(&input, DatePart::Month).unwrap();
    assert_eq!(0, value(&actual, 0));
    assert_eq!(5, value(&actual, 1));
    assert_eq!(0, value(&actual, 2));

    assert!(date_part(&input, DatePart::Day).is_err());
    assert!(date_part(&input, DatePart::Week).is_err());
}

fn day_time(days: i32, milliseconds: i32) -> IntervalDayTime {
    IntervalDayTime { days, milliseconds }
}

#[test]
fn test_interval_day_time_array() {
    let input = TemporalArray::IntervalDayTime(all_some(&[
        day_time(0, 0),
        day_time(10, 42),
        day_time(10, 1042),
        day_time(10, MILLISECONDS_IN_DAY as i32 + 1),
        day_time(
            6,
            (MILLISECONDS * 60 * 60 * 4 + MILLISECONDS * 60 * 22 + MILLISECONDS * 11 + 3) as i32,
        ),
    ]));

    let check = |part: DatePart, want: [i32; 5]| {
        let actual = date_part_primitive(&input, part).unwrap();
        for (i, w) in want.iter().enumerate() {
            assert_eq!(*w, value(&actual, i), "{:?} at {}", part, i);
        }
    };
    // Time doesn't affect days.
    check(DatePart::Day, [0, 10, 10, 10, 6]);
    check(DatePart::Week, [0, 1, 1, 1, 0]);
    // Days don't affect time.
    check(DatePart::Hour, [0, 0, 0, 24, 4]);
    check(DatePart::Minute, [0, 0, 0, 0, 22]);
    check(DatePart::Second, [0, 0, 1, 0, 11]);
    check(DatePart::Millisecond, [0, 42, 1042, 1, 11003]);
    check(DatePart::Microsecond, [0, 42_000, 1_042_000, 1_000, 11_003_000]);
    // Overflow returns zero.
    check(DatePart::Nanosecond, [0, 42_000_000, 1_042_000_000, 1_000_000, 0]);

    // Month and year are not valid (since days in month varies).
    assert!(date_part(&input, DatePart::Month).is_err());
    assert!(date_part(&input, DatePart::Year).is_err());
}

fn month_day_nano(months: i32, days: i32, nanoseconds: i64) -> IntervalMonthDayNano {
    IntervalMonthDayNano { months, days, nanoseconds }
}

#[test]
fn test_interval_month_day_nano_array() {
    let input = TemporalArray::IntervalMonthDayNano(all_some(&[
        month_day_nano(0, 0, 0),
        month_day_nano(5, 10, 42),
        month_day_nano(16, 35, NANOSECONDS_IN_DAY + 1),
        month_day_nano(
            0,
            0,
            NANOSECONDS * 60 * 60 * 4
                + NANOSECONDS * 60 * 22
                + NANOSECONDS * 11
                + 1_000_000 * 33
                + 1_000 * 44
                + 5,
        ),
    ]));

    let check = |part: DatePart, want: [i32; 4]| {
        let actual = date_part_primitive(&input, part).unwrap();
        for (i, w) in want.iter().enumerate() {
            assert_eq!(*w, value(&actual, i), "{:?} at {}", part, i);
        }
    };
    check(DatePart::Year, [0, 0, 1, 0]);
    check(DatePart::Month, [0, 5, 4, 0]);
    check(DatePart::Week, [0, 1, 5, 0]);
    check(DatePart::Day, [0, 10, 35, 0]);
    check(DatePart::Hour, [0, 0, 24, 4]);
    check(DatePart::Minute, [0, 0, 0, 22]);
    check(DatePart::Second, [0, 0, 0, 11]);
    check(DatePart::Millisecond, [0, 0, 0, 11_033]);
    check(DatePart::Microsecond, [0, 0, 0, 11_033_044]);
    // Overflow returns zero.
    check(DatePart::Nanosecond, [0, 42, 1, 0]);
}

#[test]
fn test_interval_array_invalid_parts() {
    let invalid_parts = [
        DatePart::Quarter,
        DatePart::DayOfWeekSunday0,
        DatePart::DayOfWeekMonday0,
        DatePart::DayOfYear,
    ];
    ensure_returns_error(
        &TemporalArray::IntervalYearMonth(vec![Some(0)]),
        "Interval(YearMonth)",
        &invalid_parts,
    );
    ensure_returns_error(
        &TemporalArray::IntervalDayTime(vec![Some(day_time(0, 0))]),
        "Interval(DayTime)",
        &invalid_parts,
    );
    ensure_returns_error(
        &TemporalArray::IntervalMonthDayNano(vec![Some(month_day_nano(0, 0, 0))]),
        "Interval(MonthDayNano)",
        &invalid_parts,
    );
}

fn durations(unit: TimeUnit) -> TemporalArray {
    TemporalArray::Duration { unit, values: all_some(&[0, 42, 60 * 60 * 24 + 1]) }
}

fn check_duration(input: &TemporalArray, part: DatePart, want: [i32; 3]) {
    let actual = date_part_primitive(input, part).unwrap();
    for (i, w) in want.iter().enumerate() {
        assert_eq!(*w, value(&actual, i), "{:?} at {}", part, i);
    }
}

#[test]
fn test_duration_second() {
    let input = durations(TimeUnit::Second);
    check_duration(&input, DatePart::Second, [0, 42, 60 * 60 * 24 + 1]);
    check_duration(&input, DatePart::Millisecond, [0, 42_000, (60 * 60 * 24 + 1) * 1_000]);
    check_duration(&input, DatePart::Microsecond, [0, 42_000_000, 0]);
    check_duration(&input, DatePart::Nanosecond, [0, 0, 0]);
}

#[test]
fn test_duration_millisecond() {
    let input = durations(TimeUnit::Millisecond);
    check_duration(&input, DatePart::Second, [0, 0, (60 * 60 * 24 + 1) / 1_000]);
    check_duration(&input, DatePart::Millisecond, [0, 42, 60 * 60 * 24 + 1]);
    check_duration(&input, DatePart::Microsecond, [0, 42_000, (60 * 60 * 24 + 1) * 1_000]);
    check_duration(&input, DatePart::Nanosecond, [0, 42_000_000, 0]);
}

#[test]
fn test_duration_microsecond() {
    let input = durations(TimeUnit::Microsecond);
    check_duration(&input, DatePart::Second, [0, 0, 0]);
    check_duration(&input, DatePart::Millisecond, [0, 0, (60 * 60 * 24 + 1) / 1_000]);
    check_duration(&input, DatePart::Microsecond, [0, 42, 60 * 60 * 24 + 1]);
    check_duration(&input, DatePart::Nanosecond, [0, 42_000, (60 * 60 * 24 + 1) * 1_000]);
}

#[test]
fn test_duration_nanosecond() {
    let input = durations(TimeUnit::Nanosecond);
    check_duration(&input, DatePart::Second, [0, 0, 0]);
    check_duration(&input, DatePart::Millisecond, [0, 0, 0]);
    check_duration(&input, DatePart::Microsecond, [0, 0, (60 * 60 * 24 + 1) / 1_000]);
    check_duration(&input, DatePart::Nanosecond, [0, 42, 60 * 60 * 24 + 1]);
}

#[test]
fn test_duration_invalid_parts() {
    let invalid_parts = [
        DatePart::Year,
        DatePart::Quarter,
        DatePart::Month,
        DatePart::DayOfWeekSunday0,
        DatePart::DayOfWeekMonday0,
        DatePart::DayOfYear,
    ];
    ensure_returns_error(&durations(TimeUnit::Second), "Duration(Second)", &invalid_parts);
    ensure_returns_error(&durations(TimeUnit::Millisecond), "Duration(Millisecond)", &invalid_parts);
    ensure_returns_error(&durations(TimeUnit::Microsecond), "Duration(Microsecond)", &invalid_parts);
    ensure_returns_error(&durations(TimeUnit::Nanosecond), "Duration(Nanosecond)", &invalid_parts);
}

const TIMESTAMP_SECOND_1970_01_01: i64 = 0;
const TIMESTAMP_SECOND_2018_01_01: i64 = 1_514_764_800;
const TIMESTAMP_SECOND_2019_02_20: i64 = 1_550_636_625;
const SECONDS_IN_DAY: i64 = 24 * 60 * 60;

#[test]
fn test_temporal_array_date64_week_iso() {
    let a = TemporalArray::Date64(all_some(&[
        TIMESTAMP_SECOND_2018_01_01 * 1000,
        TIMESTAMP_SECOND_2019_02_20 * 1000,
    ]));
    let actual = date_part_primitive(&a, DatePart::WeekISO).unwrap();
    assert_eq!(1, value(&actual, 0));
    assert_eq!(8, value(&actual, 1));
}

#[test]
fn test_temporal_array_date64_year_iso() {
    let a = TemporalArray::Date64(all_some(&[
        TIMESTAMP_SECOND_2018_01_01 * 1000,
        TIMESTAMP_SECOND_2019_02_20 * 1000,
    ]));
    let actual = date_part_primitive(&a, DatePart::YearISO).unwrap();
    assert_eq!(2018, value(&actual, 0));
    assert_eq!(2019, value(&actual, 1));
}

#[test]
fn test_temporal_array_timestamp_week_iso() {
    let a = timestamps(
        TimeUnit::Second,
        &[TIMESTAMP_SECOND_1970_01_01, SECONDS_IN_DAY * 4, SECONDS_IN_DAY * 4 - 1],
        None,
    );
    let actual = date_part_primitive(&a, DatePart::WeekISO).unwrap();
    assert_eq!(1, value(&actual, 0));
    assert_eq!(2, value(&actual, 1));
    assert_eq!(1, value(&actual, 2));
}

#[test]
fn test_temporal_array_timestamp_year_iso() {
    let a = timestamps(
        TimeUnit::Second,
        &[TIMESTAMP_SECOND_1970_01_01, SECONDS_IN_DAY * 4, SECONDS_IN_DAY * 4 - 1],
        None,
    );
    let actual = date_part_primitive(&a, DatePart::YearISO).unwrap();
    assert_eq!(1970, value(&actual, 0));
    assert_eq!(1970, value(&actual, 1));
    assert_eq!(1970, value(&actual, 2));
}

const TIMESTAMP_SECOND_2015_12_28: i64 = 1_451_260_800;
const TIMESTAMP_SECOND_2016_01_03: i64 = 1_451_779_200;

#[test]
fn test_temporal_array_date64_week_iso_edge_cases() {
    let a = TemporalArray::Date64(all_some(&[
        TIMESTAMP_SECOND_2015_12_28 * 1000,
        TIMESTAMP_SECOND_2016_01_03 * 1000,
        (TIMESTAMP_SECOND_2016_01_03 + SECONDS_IN_DAY) * 1000,
    ]));
    let actual = date_part_primitive(&a, DatePart::WeekISO).unwrap();
    assert_eq!(53, value(&actual, 0));
    assert_eq!(53, value(&actual, 1));
    assert_eq!(1, value(&actual, 2));
}

#[test]
fn test_temporal_array_date64_year_iso_edge_cases() {
    let a = TemporalArray::Date64(all_some(&[
        TIMESTAMP_SECOND_2015_12_28 * 1000,
        TIMESTAMP_SECOND_2016_01_03 * 1000,
        (TIMESTAMP_SECOND_2016_01_03 + SECONDS_IN_DAY) * 1000,
    ]));
    let actual = date_part_primitive(&a, DatePart::YearISO).unwrap();
    assert_eq!(2015, value(&actual, 0));
    assert_eq!(2015, value(&actual, 1));
    assert_eq!(2016, value(&actual, 2));
}

#[test]
fn test_temporal_array_timestamp_week_iso_edge_cases() {
    let a = timestamps(
        TimeUnit::Second,
        &[
            TIMESTAMP_SECOND_2015_12_28,
            TIMESTAMP_SECOND_2016_01_03,
            TIMESTAMP_SECOND_2016_01_03 + SECONDS_IN_DAY,
        ],
        None,
    );
    let actual = date_part_primitive(&a, DatePart::WeekISO).unwrap();
    assert_eq!(53, value(&actual, 0));
    assert_eq!(53, value(&actual, 1));
    assert_eq!(1, value(&actual, 2));
}

#[test]
fn test_temporal_array_timestamp_year_iso_edge_cases() {
    let a = timestamps(
        TimeUnit::Second,
        &[
            TIMESTAMP_SECOND_2015_12_28,
            TIMESTAMP_SECOND_2016_01_03,
            TIMESTAMP_SECOND_2016_01_03 + SECONDS_IN_DAY,
        ],
        None,
    );
    let actual = date_part_primitive(&a, DatePart::YearISO).unwrap();
    assert_eq!(2015, value(&actual, 0));
    assert_eq!(2015, value(&actual, 1));
    assert_eq!(2016, value(&actual, 2));
}

#[test]
fn named_zone_shifts_local_time() {
    // Asia/Kolkata is five and a half hours ahead of UTC all year.
    let a = timestamps(TimeUnit::Millisecond, &[0], Some("Asia/Kolkata"));
    assert_eq!(date_part_primitive(&a, DatePart::Hour).unwrap(), vec![Some(5)]);
    assert_eq!(date_part_primitive(&a, DatePart::Minute).unwrap(), vec![Some(30)]);
    let bad = timestamps(TimeUnit::Millisecond, &[0], Some("Not/AZone"));
    assert!(matches!(date_part(&bad, DatePart::Hour), Err(KernelError::InvalidTimezone { .. })));
}

#[test]
fn seconds_timestamp_checks_the_zone_for_every_part() {
    // a malformed zone fails the call even where the part needs no zone
    let a = timestamps(TimeUnit::Second, &[5], Some("0100"));
    assert!(matches!(date_part(&a, DatePart::Nanosecond), Err(KernelError::InvalidTimezone { .. })));
    let b = timestamps(TimeUnit::Second, &[5], Some("+01:00"));
    assert_eq!(date_part_primitive(&b, DatePart::Nanosecond).unwrap(), vec![Some(0)]);
}

#[test]
fn local_part_at_given_offset() {
    // 1970-01-01T23:30:00Z seen one hour ahead is 00:30 on the second of January
    let v = 23 * 3600 + 30 * 60;
    assert_eq!(local_timestamp_part(v, TimeUnit::Second, 3600, DatePart::Hour), Some(0));
    assert_eq!(local_timestamp_part(v, TimeUnit::Second, 3600, DatePart::Day), Some(2));
    assert_eq!(local_timestamp_part(v, TimeUnit::Second, 0, DatePart::Day), Some(1));
    // 2262-04-11T23:47:16.854775807Z, the last nanosecond timestamp
    assert_eq!(local_timestamp_part(i64::MAX, TimeUnit::Nanosecond, 3600, DatePart::Day), Some(12));
    assert_eq!(local_timestamp_part(i64::MAX, TimeUnit::Nanosecond, 3600, DatePart::Hour), Some(0));
    assert_eq!(
        local_timestamp_part(i64::MAX, TimeUnit::Nanosecond, 3600, DatePart::Nanosecond),
        Some(854_775_807)
    );
}

#[test]
fn instants_before_the_epoch_split_downward() {
    // one millisecond before 1970 is 1969-12-31T23:59:59.999
    let a = TemporalArray::Date64(vec![Some(-1)]);
    assert_eq!(date_part_primitive(&a, DatePart::Year).unwrap(), vec![Some(1969)]);
    assert_eq!(date_part_primitive(&a, DatePart::Hour).unwrap(), vec![Some(23)]);
    assert_eq!(date_part_primitive(&a, DatePart::Millisecond).unwrap(), vec![Some(999)]);
    let t = timestamps(TimeUnit::Nanosecond, &[-1], None);
    assert_eq!(date_part_primitive(&t, DatePart::Nanosecond).unwrap(), vec![Some(999_999_999)]);
    assert_eq!(date_part_primitive(&t, DatePart::DayOfYear).unwrap(), vec![Some(365)]);
}

#[test]
fn days_beyond_the_calendar_are_null() {
    let a = TemporalArray::Date32(vec![Some(i32::MAX), Some(0)]);
    assert_eq!(date_part_primitive(&a, DatePart::Year).unwrap(), vec![None, Some(1970)]);
    // a day count has no time of day, in range or not
    assert_eq!(date_part_primitive(&a, DatePart::Hour).unwrap(), vec![Some(0), Some(0)]);
}

#[test]
fn leap_day_and_quarters() {
    // 2024-02-29 is day 19782
    let a = TemporalArray::Date32(vec![Some(19782)]);
    assert_eq!(date_part_primitive(&a, DatePart::Month).unwrap(), vec![Some(2)]);
    assert_eq!(date_part_primitive(&a, DatePart::Day).unwrap(), vec![Some(29)]);
    assert_eq!(date_part_primitive(&a, DatePart::DayOfYear).unwrap(), vec![Some(60)]);
    assert_eq!(date_part_primitive(&a, DatePart::Quarter).unwrap(), vec![Some(1)]);
}

#[test]
fn negative_intervals_truncate_toward_zero() {
    let ym = TemporalArray::IntervalYearMonth(vec![Some(-13)]);
    assert_eq!(date_part_primitive(&ym, DatePart::Year).unwrap(), vec![Some(-1)]);
    assert_eq!(date_part_primitive(&ym, DatePart::Month).unwrap(), vec![Some(-1)]);
    let dt = TemporalArray::IntervalDayTime(vec![Some(day_time(-8, -61_001))]);
    assert_eq!(date_part_primitive(&dt, DatePart::Week).unwrap(), vec![Some(-1)]);
    assert_eq!(date_part_primitive(&dt, DatePart::Minute).unwrap(), vec![Some(-1)]);
    assert_eq!(date_part_primitive(&dt, DatePart::Second).unwrap(), vec![Some(-1)]);
    assert_eq!(date_part_primitive(&dt, DatePart::Millisecond).unwrap(), vec![Some(-1_001)]);
    let d = TemporalArray::Duration { unit: TimeUnit::Second, values: vec![Some(-90)] };
    assert_eq!(date_part_primitive(&d, DatePart::Minute).unwrap(), vec![Some(-1)]);
}

#[test]
fn duration_week_and_day() {
    let d = TemporalArray::Duration { unit: TimeUnit::Nanosecond, values: vec![Some(NANOSECONDS_IN_DAY * 15)] };
    assert_eq!(date_part_primitive(&d, DatePart::Week).unwrap(), vec![Some(2)]);
    assert_eq!(date_part_primitive(&d, DatePart::Day).unwrap(), vec![Some(15)]);
    assert_eq!(date_part_primitive(&d, DatePart::Hour).unwrap(), vec![Some(360)]);
}

#[test]
fn dictionary_errors_pass_through() {
    let d = dict(vec![Some(0)], TemporalArray::Time32Second(vec![Some(1)]));
    let err = date_part(&d, DatePart::Year).unwrap_err();
    assert_eq!(err.message(), "Compute error: Year does not support: Time32(Second)");
}

const SUB_DAY_PARTS: [DatePart; 6] = [
    DatePart::Hour,
    DatePart::Minute,
    DatePart::Second,
    DatePart::Millisecond,
    DatePart::Microsecond,
    DatePart::Nanosecond,
];

#[test]
fn time32_seconds_outside_the_day_are_null_for_every_part() {
    let input = TemporalArray::Time32Second(vec![Some(-1), Some(86_400), Some(86_399)]);
    let last = [23, 59, 59, 0, 0, 0];
    for (part, want) in SUB_DAY_PARTS.iter().zip(last) {
        let out = date_part_primitive(&input, *part).unwrap();
        assert_eq!(out, vec![None, None, Some(want)], "{:?}", part);
    }
}

#[test]
fn date32_sub_day_parts_are_zero_and_date64_reads_the_clock() {
    let days = TemporalArray::Date32(vec![Some(19782), None]);
    // 2022-11-01T18:52:01.453Z
    let millis = TemporalArray::Date64(vec![Some(1667328721453), None]);
    let clock = [18, 52, 1, 453, 453_000, 453_000_000];
    for (part, want) in SUB_DAY_PARTS.iter().zip(clock) {
        assert_eq!(date_part_primitive(&days, *part).unwrap(), vec![Some(0), None]);
        assert_eq!(date_part_primitive(&millis, *part).unwrap(), vec![Some(want), None]);
    }
}

#[test]
fn dictionary_result_matches_extracting_from_its_values() {
    let values = || TemporalArray::Date64(vec![Some(1514764800000), None, Some(1550636625000)]);
    let keys = vec![Some(2), None, Some(0), Some(1)];
    for part in [DatePart::Year, DatePart::DayOfYear, DatePart::Hour, DatePart::WeekISO] {
        let (k, v) = dictionary(date_part(&dict(keys.clone(), values()), part).unwrap());
        assert_eq!(k, keys);
        assert_eq!(v, date_part_primitive(&values(), part).unwrap());
    }
    let bad = dict(keys.clone(), TemporalArray::Duration { unit: TimeUnit::Second, values: vec![Some(1)] });
    let direct = date_part(&TemporalArray::Duration { unit: TimeUnit::Second, values: vec![Some(1)] }, DatePart::Month);
    assert_eq!(date_part(&bad, DatePart::Month).unwrap_err().message(), direct.unwrap_err().message());
}

#[test]
fn zoned_timestamps_near_the_end_of_the_range() {
    let a = timestamps(TimeUnit::Nanosecond, &[i64::MAX], Some("+01:00"));
    assert_eq!(date_part_primitive(&a, DatePart::Hour).unwrap(), vec![Some(0)]);
    assert_eq!(date_part_primitive(&a, DatePart::Day).unwrap(), vec![Some(12)]);
    let b = timestamps(TimeUnit::Nanosecond, &[i64::MIN], Some("-01:00"));
    assert_eq!(date_part_primitive(&b, DatePart::Year).unwrap(), vec![Some(1677)]);
}
