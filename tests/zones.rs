use std::collections::hash_map::DefaultHasher;
use std::hash::{Hash, Hasher};
use std::sync::Arc;

use botic::tai::{LeapSecondRegistry, LeapSeconds, Tai, UnexpectedLeapSecond};
use botic::timezone::{Utc, UtcOffset};
use botic::{Date, DateTime, Month, NaiveDateTime, Time, TimeZone, Timestamp, Year};

fn naive(y: i16, m: Month, d: u8, h: u8, min: u8, s: u8) -> NaiveDateTime {
    NaiveDateTime::new(
        Date::from_ymd_unchecked(Year::from_i16(y), m, d),
        Time::from_hms_unchecked(h, min, s),
    )
}

fn hash_of<T: Hash>(value: &T) -> u64 {
    let mut hasher = DefaultHasher::new();
    value.hash(&mut hasher);
    hasher.finish()
}

#[test]
fn utc_offset_display_no_offset() {
    let offset = UtcOffset::from_seconds(0);
    let offset_str = offset.to_string();
    assert_eq!(offset_str, "UTC");
}

#[test]
fn utc_offset_display_positive_offset() {
    let offset = UtcOffset::from_hours(1);
    let offset_str = offset.to_string();
    assert_eq!(offset_str, "UTC+1");
}

#[test]
fn utc_offset_display_minute_offset() {
    let offset = UtcOffset::from_seconds(60);
    let offset_str = offset.to_string();
    assert_eq!(offset_str, "UTC+00:01");
}

#[test]
fn utc_offset_display_second_offset() {
    let offset = UtcOffset::from_seconds(-32);
    let offset_str = offset.to_string();
    assert_eq!(offset_str, "UTC-00:00:32");
}

#[test]
fn utc_offset_display_more() {
    assert_eq!("UTC-5", UtcOffset::from_hours(-5).to_string());
    assert_eq!("UTC+12", UtcOffset::from_hours(12).to_string());
    assert_eq!("UTC+05:30", UtcOffset::from_seconds(5 * 3600 + 30 * 60).to_string());
    assert_eq!("UTC-10:00:01", UtcOffset::from_seconds(-36_001).to_string());
    assert_eq!(-36_001, UtcOffset::from_seconds(-36_001).seconds_ahead());
}

#[test]
fn test_conversion_no_leap_seconds() {
    let tai = Tai::new(Arc::new(LeapSecondRegistry::new()));
    let offset = tai
        .offset_from_local_naive(naive(2000, Month::January, 1, 0, 0, 0))
        .unwrap();

    assert_eq!(offset, UtcOffset::from_seconds(-10));
}

#[test]
fn test_conversion_one_leap_second() {
    let registry = Arc::new(LeapSecondRegistry::new());
    registry.add_leap_second(Date::from_ymd_unchecked(2000.into(), Month::January, 1));
    let tai = Tai::new(registry);
    let offset = tai
        .offset_from_local_naive(naive(2000, Month::January, 2, 0, 0, 0))
        .unwrap();

    assert_eq!(offset, UtcOffset::from_seconds(-11));
}

#[test]
fn adding_a_leap_second_twice_changes_nothing() {
    let registry = Arc::new(LeapSecondRegistry::new());
    let day = Date::from_ymd_unchecked(2000.into(), Month::January, 1);
    registry.add_leap_second(day);
    registry.add_leap_second(day);
    let tai = Tai::new(registry.clone());
    let offset = tai
        .offset_from_local_naive(naive(2000, Month::January, 2, 0, 0, 0))
        .unwrap();
    assert_eq!(offset, UtcOffset::from_seconds(-11));
    let snapshot = registry.snapshot();
    assert_eq!(1, snapshot.leap_seconds_before_inclusive(naive(2001, Month::January, 1, 0, 0, 0)));
}

#[test]
fn leap_second_list_counts_and_orders() {
    let mut list = LeapSeconds::empty();
    list.add_leap_second(Date::from_ymd_unchecked(2016.into(), Month::December, 31));
    list.add_leap_second(Date::from_ymd_unchecked(2012.into(), Month::June, 30));
    list.add_leap_second(Date::from_ymd_unchecked(2015.into(), Month::June, 30));
    list.add_leap_second(Date::from_ymd_unchecked(2012.into(), Month::June, 30));
    let before = |dt| list.leap_seconds_before_inclusive(dt);
    assert_eq!(0, before(naive(2012, Month::June, 29, 23, 59, 59)));
    assert_eq!(1, before(naive(2012, Month::June, 30, 0, 0, 0)));
    assert_eq!(2, before(naive(2016, Month::January, 1, 0, 0, 0)));
    assert_eq!(3, before(naive(2020, Month::January, 1, 0, 0, 0)));
    assert_eq!(-13, list.utc_offset(naive(2020, Month::January, 1, 0, 0, 0)).seconds_ahead());
    assert_eq!(-10, list.utc_offset(naive(2000, Month::January, 1, 0, 0, 0)).seconds_ahead());
    let copy = list.clone();
    assert_eq!(3, copy.leap_seconds_before_inclusive(naive(2020, Month::January, 1, 0, 0, 0)));
}

#[test]
fn tai_offset_resolution_moves_past_a_leap_second() {
    let mut list = LeapSeconds::empty();
    list.add_leap_second(Date::from_ymd_unchecked(2000.into(), Month::January, 1));
    // The local reading seeds a count of none; the UTC instant it gives is
    // past the leap second, which brings the count to one.
    let local = naive(1999, Month::December, 31, 23, 59, 55);
    assert_eq!(Ok(UtcOffset::from_seconds(-11)), list.offset_from_local(local));
    let early = naive(1999, Month::December, 31, 23, 59, 40);
    assert_eq!(Ok(UtcOffset::from_seconds(-10)), list.offset_from_local(early));
    let leap = naive(1999, Month::December, 31, 23, 59, 60);
    assert_eq!(Err(UnexpectedLeapSecond { given_dt: leap }), list.offset_from_local(leap));
    let tai = Tai::new(Arc::new(LeapSecondRegistry::new()));
    assert_eq!(Err(UnexpectedLeapSecond { given_dt: leap }), tai.offset_from_local_naive(leap));
}

#[test]
fn same_instant_in_two_zones_is_equal_and_hashes_alike() {
    let utc_time = naive(2021, Month::June, 1, 12, 0, 0);
    let local_time = naive(2021, Month::June, 1, 17, 0, 0);
    let in_utc = DateTime::from_utc(utc_time, Utc);
    let five = UtcOffset::from_hours(5);
    let in_five = DateTime::from_local(local_time, five).unwrap();
    assert!(in_utc == in_five);
    assert_eq!(hash_of(&in_utc), hash_of(&in_five.as_utc()));
    assert_eq!(hash_of(&in_five), hash_of(&DateTime::from_utc(utc_time, five)));
    assert_eq!(utc_time, in_five.naive_utc());
    assert_eq!(five, in_five.offset());
    assert_eq!(&five, in_five.timezone());
    assert_eq!((local_time, false), in_five.to_naive_overflowing());
    assert_eq!(UtcOffset::from_seconds(0), in_utc.offset());
    let later = DateTime::from_utc(naive(2021, Month::June, 1, 12, 0, 1), Utc);
    assert!(in_five < later);
    assert!(later > in_five);
    assert_eq!(in_utc.into_timezone(five), in_five);
    assert_eq!(Timestamp::new(1_622_548_800, 0), in_five.unix_timestamp());
}

#[test]
fn tai_readings_of_utc_instants() {
    let registry = Arc::new(LeapSecondRegistry::new());
    registry.add_leap_second(Date::from_ymd_unchecked(2000.into(), Month::January, 1));
    let tai = Tai::new(registry);
    let utc = DateTime::from_utc(naive(2000, Month::January, 1, 0, 0, 0), Utc);
    let in_tai = utc.as_tai(tai.clone());
    assert_eq!(UtcOffset::from_seconds(-11), in_tai.offset());
    assert_eq!(naive(1999, Month::December, 31, 23, 59, 49), in_tai.to_naive_overflowing().0);
    assert_eq!(
        naive(1999, Month::December, 31, 23, 59, 49).timestamp(),
        utc.tai_timestamp(tai.clone())
    );
    let (moved, overflow) = utc.add_seconds_overflowing(60, tai.clone());
    assert!(!overflow);
    assert_eq!(naive(2000, Month::January, 1, 0, 1, 0), moved.naive_utc());
    // One second of TAI before the reading 23:59:49 is 23:59:48, which no
    // leap second precedes yet: it reads back two UTC seconds earlier.
    let (moved, overflow) = utc.add_nanoseconds_overflowing(-1_000_000_000, tai);
    assert!(!overflow);
    assert_eq!(naive(1999, Month::December, 31, 23, 59, 58), moved.naive_utc());
}
