use botic::{
    Date, DayGreaterThanMaximumForMonthError, InvalidDateError, InvalidTimeError,
    LeapDayNotInLeapYearError, Month, NaiveDateTime, Time, Timestamp, Weekday, Year,
};

fn date(y: i16, m: Month, d: u8) -> Date {
    Date::from_ymd_unchecked(Year::from_i16(y), m, d)
}

#[test]
fn leap_years() {
    assert!(Year::from_i16(2000).is_leap_year());
    assert!(Year::from_i16(2020).is_leap_year());
    assert!(!Year::from_i16(1900).is_leap_year());
    assert!(!Year::from_i16(2021).is_leap_year());
    assert!(!Year::from_i16(2100).is_leap_year());
    assert!(Year::from_i16(-400).is_leap_year());
    assert!(!Year::from_i16(-100).is_leap_year());
    assert!(Year::from_i16(-4).is_leap_year());
}

#[test]
fn year_arithmetic() {
    assert_eq!(Some(Year::from(2022)), Year::from_i16(2021).checked_add(1));
    assert_eq!(None, Year::from_i16(i16::MAX).checked_add(1));
    assert_eq!((Year::from(2022), false), Year::from(2021).overflowing_add(1));
    assert_eq!((Year::from_i16(i16::MIN), true), Year::from_i16(i16::MAX).overflowing_add(1));
    assert_eq!(Year::from(2022), Year::from(2021).saturating_add(1));
    assert_eq!(Year::from_i16(i16::MAX), Year::from_i16(i16::MAX).saturating_add(1));
    assert_eq!(Year::from_i16(i16::MIN), Year::from_i16(i16::MAX).wrapping_add(1));
    assert_eq!(Some(Year::from(2020)), Year::from_i16(2021).checked_sub(1));
    assert_eq!(None, Year::from_i16(i16::MIN).checked_sub(1));
    assert_eq!((Year::from_i16(i16::MAX), true), Year::from_i16(i16::MIN).overflowing_sub(1));
    assert_eq!(Year::from_i16(i16::MIN), Year::from_i16(i16::MIN).saturating_sub(1));
    assert_eq!(Year::from_i16(i16::MAX), Year::from_i16(i16::MIN).wrapping_sub(1));
    assert_eq!(2021, Year::from_i16(2021).as_i16());
    assert_eq!(2021i16, i16::from(Year::from_i16(2021)));
}

#[test]
fn ordinal_tables() {
    assert_eq!(365, Month::December.last_day_ordinal(false));
    assert_eq!(366, Month::December.last_day_ordinal(true));
    assert_eq!(31, Month::January.last_day_ordinal(true));
    assert_eq!(31, Month::January.last_day_ordinal(false));
    assert_eq!(59, Month::February.last_day_ordinal_common());
    assert_eq!(60, Month::February.last_day_ordinal_leap());
    assert_eq!(Month::February, Month::from_ordinal(59, true));
    assert_eq!(Month::March, Month::from_ordinal(59, false));
    assert_eq!(Month::January, Month::from_ordinal_common(0));
    assert_eq!(Month::December, Month::from_ordinal_leap(365));
}

#[test]
fn month_names_and_numbers() {
    assert_eq!(Some(Month::January), Month::from_u8(1));
    assert_eq!(None, Month::from_u8(0));
    assert_eq!(None, Month::from_u8(13));
    assert_eq!(Some(Month::January), Month::from_abbreviation("Jan"));
    assert_eq!(None, Month::from_abbreviation("Janu"));
    assert_eq!(Some(Month::September), Month::from_name("September"));
    assert_eq!(None, Month::from_name("Janu"));
    assert_eq!(12, Month::December.number());
    assert_eq!("January", Month::January.name());
    assert_eq!("Aug", Month::August.abbreviation());
    assert_eq!(Month::January, Month::December.next());
    assert_eq!(Month::December, Month::January.previous());
    assert_eq!(29, Month::February.days(true));
    assert_eq!((Month::February, 1), Month::December.add_overflowing(2));
    assert_eq!((Month::November, -1), Month::January.add_overflowing(-2));
    assert_eq!(Ok(Month::March), "3".parse::<Month>());
    assert_eq!(Ok(Month::March), "Mar".parse::<Month>());
    assert_eq!(Ok(Month::March), "March".parse::<Month>());
    assert!("13".parse::<Month>().is_err());
    assert!("march".parse::<Month>().is_err());
}

#[test]
fn weekdays() {
    assert_eq!(Some(Weekday::Monday), Weekday::from_name("Monday"));
    assert_eq!(None, Weekday::from_name("monday"));
    assert_eq!(Weekday::Tuesday, Weekday::Monday.next());
    assert_eq!(Weekday::Sunday, Weekday::Monday.previous());
    assert_eq!(0, Weekday::Monday.number_days_from_monday());
    assert_eq!(7, Weekday::Sunday.number_from_monday());
    assert_eq!(0, Weekday::Sunday.number_days_from_sunday());
    assert_eq!(2, Weekday::Monday.number_from_sunday());
    assert_eq!(Ok(Weekday::Friday), "Friday".parse::<Weekday>());
    assert!("Fri".parse::<Weekday>().is_err());
}

#[test]
fn day_counts() {
    assert_eq!(0, date(1, Month::January, 1).days_after_common_era());
    assert_eq!(719_162, date(1970, Month::January, 1).days_after_common_era());
    assert_eq!(-1, date(0, Month::December, 31).days_after_common_era());
    assert_eq!(-366, date(0, Month::January, 1).days_after_common_era());
    for d in [
        date(2000, Month::February, 29),
        date(1969, Month::December, 31),
        date(-1, Month::March, 1),
        date(i16::MIN, Month::January, 1),
        date(i16::MAX, Month::December, 31),
    ] {
        assert_eq!(d, Date::from_days_after_common_era(d.days_after_common_era()));
    }
}

#[test]
fn add_days_carries_across_months_and_years() {
    assert_eq!(date(2021, Month::March, 1), date(2021, Month::February, 28).add_days(1));
    assert_eq!(date(2020, Month::February, 29), date(2020, Month::February, 28).add_days(1));
    assert_eq!(date(2019, Month::December, 31), date(2020, Month::January, 1).add_days(-1));
    let (d, overflow) = date(i16::MAX, Month::December, 31).add_days_overflowing(1);
    assert!(overflow);
    assert_eq!(date(i16::MIN, Month::January, 1), d);
    assert_eq!((date(2000, Month::January, 2), false), date(2000, Month::January, 1).add_days_overflowing(1));
}

#[test]
fn add_months_rejects_day_past_month_end() {
    assert_eq!(
        Err(DayGreaterThanMaximumForMonthError {
            month: Month::February,
            given_day: 31,
            month_max_day: 28,
        }),
        date(2021, Month::January, 31).add_months(1)
    );
    assert_eq!(
        Err(DayGreaterThanMaximumForMonthError {
            month: Month::February,
            given_day: 31,
            month_max_day: 29,
        }),
        date(2020, Month::January, 31).add_months(1)
    );
    assert_eq!(Ok(date(2021, Month::February, 28)), date(2020, Month::December, 28).add_months(2));
    assert_eq!(Ok(date(2019, Month::November, 15)), date(2020, Month::January, 15).add_months(-2));
}

#[test]
fn add_years_rejects_leap_day() {
    assert_eq!(
        Err(LeapDayNotInLeapYearError(Year::from_i16(2021))),
        date(2020, Month::February, 29).add_years(1)
    );
    assert_eq!(Ok(date(2024, Month::February, 29)), date(2020, Month::February, 29).add_years(4));
    assert_eq!(
        Ok((date(i16::MIN, Month::March, 1), true)),
        date(i16::MAX, Month::March, 1).add_years_overflowing(1)
    );
}

#[test]
fn validated_date() {
    assert_eq!(Ok(date(2020, Month::February, 29)), Date::from_ymd(Year::from(2020), Month::February, 29));
    assert_eq!(
        Err(InvalidDateError::NonLeapYear(LeapDayNotInLeapYearError(Year::from(2021)))),
        Date::from_ymd(Year::from(2021), Month::February, 29)
    );
    assert_eq!(
        Err(InvalidDateError::DayTooBig(DayGreaterThanMaximumForMonthError {
            month: Month::April,
            given_day: 31,
            month_max_day: 30,
        })),
        Date::from_ymd(Year::from(2021), Month::April, 31)
    );
    assert_eq!(Err(InvalidDateError::DayZero), Date::from_ymd(Year::from(2021), Month::April, 0));
}

#[test]
fn validated_time() {
    assert_eq!(Ok(Time::from_hms_nano_unchecked(23, 59, 60, 5)), Time::from_hms_nano(23, 59, 60, 5));
    let bad = |h, m, s, n| Err(InvalidTimeError { hour: h, minute: m, second: s, nanosecond: n });
    assert_eq!(bad(24, 0, 0, 0), Time::from_hms(24, 0, 0));
    assert_eq!(bad(0, 60, 0, 0), Time::from_hms(0, 60, 0));
    assert_eq!(bad(0, 0, 61, 0), Time::from_hms(0, 0, 61));
    assert_eq!(bad(12, 59, 60, 0), Time::from_hms(12, 59, 60));
    assert_eq!(bad(0, 0, 0, 1_000_000_000), Time::from_hms_nano(0, 0, 0, 1_000_000_000));
    assert_eq!(Ok(Time::from_hms_milli_unchecked(1, 2, 3, 4)), Time::from_hms_milli(1, 2, 3, 4));
    assert_eq!(4_000_000, Time::from_hms_milli(1, 2, 3, 4).unwrap().nanosecond());
    assert_eq!(5_000, Time::from_hms_micro(1, 2, 3, 5).unwrap().nanosecond());
    assert_eq!(Ok(Time::from_hms_micro_unchecked(1, 2, 3, 5)), Time::from_hms_micro(1, 2, 3, 5));
    assert_eq!(bad(1, 2, 3, 1_000_000_000), Time::from_hms_milli(1, 2, 3, 1000));
    assert_eq!(bad(1, 2, 3, 65_535_000_000), Time::from_hms_milli(1, 2, 3, u16::MAX));
    assert_eq!(bad(1, 2, 3, 4_294_967_295_000), Time::from_hms_micro(1, 2, 3, u32::MAX));
    let t = Time::from_hms_nano(1, 2, 3, 456_789_012).unwrap();
    assert_eq!((1, 2, 3), (t.hour(), t.minute(), t.second()));
    assert_eq!((456, 456_789), (t.millisecond(), t.microsecond()));
    assert_eq!(3723, t.seconds_from_midnight());
    assert_eq!(3_723_456_789_012, t.nanoseconds_from_midnight());
}

#[test]
fn time_carrying_arithmetic() {
    let t = Time::from_hms_nano_unchecked(23, 59, 59, 999_999_999);
    assert_eq!((Time::from_hms_unchecked(0, 0, 0), true), t.add_nanoseconds_overflowing(1));
    assert_eq!(None, t.add_nanoseconds_checked(1));
    assert_eq!(Time::from_hms_unchecked(0, 0, 0), t.add_nanoseconds_wrapping(1));
    let noon = Time::from_hms_unchecked(12, 0, 0);
    assert_eq!((Time::from_hms_unchecked(11, 59, 59), false), noon.add_seconds_overflowing(-1));
    assert_eq!((Time::from_hms_unchecked(23, 0, 0), true), noon.add_hours_overflowing(-13));
    assert_eq!((Time::from_hms_unchecked(0, 0, 0), true), noon.add_hours_overflowing(-36));
    assert_eq!((Time::from_hms_unchecked(13, 30, 0), false), noon.add_minutes_overflowing(90));
    assert_eq!((Time::from_hms_unchecked(11, 59, 0), false), noon.add_minutes_overflowing(-1));
    assert_eq!(Some(Time::from_hms_unchecked(14, 0, 0)), noon.add_hours_checked(2));
    assert_eq!(Time::from_hms_unchecked(2, 0, 0), noon.add_hours_wrapping(14));
    assert_eq!(Time::from_hms_unchecked(12, 1, 40), noon.add_seconds(100));
    assert_eq!(Time::from_hms_unchecked(11, 0, 0), noon.add_minutes(-60));
    assert_eq!(Time::from_hms_unchecked(13, 0, 0), noon.add_hours(1));
    assert_eq!(Time::from_hms_nano_unchecked(11, 59, 59, 999_999_999), noon.add_nanoseconds(-1));
    assert_eq!(None, noon.add_minutes_checked(12 * 60));
    assert_eq!(Some(Time::from_hms_unchecked(0, 0, 0)), noon.add_seconds_checked(-12 * 3600));
    assert_eq!(Time::from_hms_unchecked(11, 59, 0), noon.add_minutes_wrapping(-1));
    assert_eq!(Time::from_hms_unchecked(11, 59, 59), noon.add_seconds_wrapping(86_399));
    let leap = Time::from_hms_unchecked(23, 59, 60);
    assert_eq!((Time::from_hms_unchecked(0, 0, 0), true), leap.add_seconds_overflowing(0));
}

#[test]
fn timestamps_round_trip() {
    let epoch = NaiveDateTime::new(date(1970, Month::January, 1), Time::from_hms_unchecked(0, 0, 0));
    assert_eq!(Timestamp::new(0, 0), epoch.timestamp());
    let before = NaiveDateTime::new(
        date(1969, Month::December, 31),
        Time::from_hms_nano_unchecked(23, 59, 59, 500),
    );
    assert_eq!(Timestamp::new(-1, 500), before.timestamp());
    assert_eq!(before, NaiveDateTime::from_timestamp(Timestamp::new(-1, 500)));
    let t = NaiveDateTime::new(
        date(2021, Month::March, 14),
        Time::from_hms_nano_unchecked(15, 9, 26, 535_897_932),
    );
    assert_eq!(1_615_734_566, t.timestamp().total_seconds());
    assert_eq!(535_897_932, t.timestamp().nanosecond());
    assert_eq!(t, NaiveDateTime::from_timestamp(t.timestamp()));
    assert_eq!((2021, Month::March, 14), (t.year().as_i16(), t.month(), t.day()));
    assert_eq!((15, 9, 26), (t.hour(), t.minute(), t.second()));
    assert_eq!((535, 535_897, 535_897_932), (t.millisecond(), t.microsecond(), t.nanosecond()));
    assert_eq!((t.date(), t.time()), (date(2021, Month::March, 14), t.time()));
}

#[test]
fn timestamps_of_durations_and_checked_conversion() {
    assert_eq!(Some(Timestamp::new(5, 250)), Timestamp::from_duration(false, 5, 250));
    assert_eq!(Some(Timestamp::new(-6, 999_999_750)), Timestamp::from_duration(true, 5, 250));
    assert_eq!(Some(Timestamp::new(-5, 0)), Timestamp::from_duration(true, 5, 0));
    assert_eq!(None, Timestamp::from_duration(false, u64::MAX, 0));
    let t = Timestamp::new(86_400 + 61, 7);
    let expected = NaiveDateTime::new(date(1970, Month::January, 2), Time::from_hms_nano_unchecked(0, 1, 1, 7));
    assert_eq!(Some(expected), NaiveDateTime::from_timestamp_checked(t));
    assert_eq!(None, NaiveDateTime::from_timestamp_checked(Timestamp::new(i64::MAX, 0)));
    assert_eq!(None, NaiveDateTime::from_timestamp_checked(Timestamp::new(0, 1_000_000_000)));
}

#[test]
fn timestamp_arithmetic() {
    let t = Timestamp::new(100, 7);
    assert_eq!((Timestamp::new(100 + 86_400, 7), false), t.add_days_overflowing(1));
    assert_eq!((Timestamp::new(100 - 3_600, 7), false), t.add_hours_overflowing(-1));
    assert_eq!((Timestamp::new(160, 7), false), t.add_minutes_overflowing(1));
    assert_eq!((Timestamp::new(i64::MIN + 99, 7), true), t.add_seconds_overflowing(i64::MAX));
    assert_eq!((Timestamp::new(99, 999_999_999), false), t.add_nanoseconds_overflowing(-8));
    assert_eq!((Timestamp::new(101, 0), false), t.add_nanoseconds_overflowing(999_999_993));
}

#[test]
fn naive_date_time_arithmetic() {
    let t = NaiveDateTime::new(date(2020, Month::December, 31), Time::from_hms_unchecked(23, 0, 0));
    let next = NaiveDateTime::new(date(2021, Month::January, 1), Time::from_hms_unchecked(0, 30, 0));
    assert_eq!((next, false), t.add_minutes_overflowing(90));
    assert_eq!((next, false), t.add_seconds_overflowing(5_400));
    assert_eq!((next, false), t.add_nanoseconds_overflowing(5_400_000_000_000));
    assert_eq!(
        (NaiveDateTime::new(date(2021, Month::January, 1), Time::from_hms_unchecked(1, 0, 0)), false),
        t.add_hours_overflowing(2)
    );
    assert_eq!(
        (NaiveDateTime::new(date(2021, Month::January, 30), Time::from_hms_unchecked(23, 0, 0)), false),
        t.add_days_overflowing(30)
    );
    assert!(t.add_months_overflowing(2).is_err());
    assert_eq!(
        Ok((NaiveDateTime::new(date(2021, Month::January, 31), Time::from_hms_unchecked(23, 0, 0)), false)),
        t.add_months_overflowing(1)
    );
    assert_eq!(
        Ok((NaiveDateTime::new(date(2022, Month::December, 31), Time::from_hms_unchecked(23, 0, 0)), false)),
        t.add_years_overflowing(2)
    );
    let last = NaiveDateTime::new(date(i16::MAX, Month::December, 31), Time::from_hms_unchecked(23, 59, 59));
    let (wrapped, overflow) = last.add_seconds_overflowing(1);
    assert!(overflow);
    assert_eq!(NaiveDateTime::new(date(i16::MIN, Month::January, 1), Time::from_hms_unchecked(0, 0, 0)), wrapped);
}
