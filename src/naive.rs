use vstd::prelude::*;

use core::cmp::Ordering;

use crate::arith::{compare_lex, floor_div_mod, lex_cmp};
use crate::date::{
    day_count_in_range, days_before_year, lemma_day_count_round_trip,
    lemma_days_before_year_monotone, wrap_day_count, Date, DayGreaterThanMaximumForMonthError,
    LeapDayNotInLeapYearError,
};
use crate::month::Month;
use crate::time::{time_of_seconds, Time};
use crate::timestamp::Timestamp;
use crate::year::Year;

verus! {

/// The day count of 1970-01-01, the epoch of timestamps.
pub const UNIX_EPOCH_DAYS: i64 = 719_162;

/// The day count of the epoch of timestamps is that of 1970-01-01.
pub proof fn lemma_unix_epoch_day_count()
    ensures
        (Date { year: Year(1970), month: Month::January, day: 1 }).day_count() == UNIX_EPOCH_DAYS,
{
}

/// A date and a time of day, in no particular time zone.
#[derive(Copy, Clone, PartialEq, Eq, Structural, Hash, Debug, Ord)]
pub struct NaiveDateTime {
    pub date: Date,
    pub time: Time,
}

/// `r` is the date-time `total` seconds and `nanosecond` nanoseconds after
/// the epoch, its day count wrapped back into range where it left it, and
/// its flag says whether it did.
pub open spec fn wrapped_instant(r: (NaiveDateTime, bool), total: int, nanosecond: int) -> bool {
    &&& is_wrapped_instant(r.0, total, nanosecond)
    &&& r.1 == !day_count_in_range(total / 86_400 + UNIX_EPOCH_DAYS)
}

/// `d` is the date-time `total` seconds and `nanosecond` nanoseconds after
/// the epoch, its day count wrapped back into range where it left it.
pub open spec fn is_wrapped_instant(d: NaiveDateTime, total: int, nanosecond: int) -> bool {
    &&& d.date.wf()
    &&& d.date.day_count() == wrap_day_count(total / 86_400 + UNIX_EPOCH_DAYS)
    &&& d.time == time_of_seconds(total % 86_400, nanosecond as u32)
}

/// Every date has a day count within a few million days of the epoch.
pub(crate) proof fn lemma_day_count_bounds(d: Date)
    ensures
        -20_000_000 <= d.day_count() <= 20_000_000,
{
    lemma_days_before_year_monotone(i16::MIN as int, d.year.value());
    lemma_days_before_year_monotone(d.year.value(), i16::MAX as int);
}

/// The date-time `total` seconds and `nanosecond` nanoseconds after the
/// epoch, with the day count wrapped into range where it leaves it.
fn from_seconds_wrapping(total: i128, nanosecond: u32) -> (r: (NaiveDateTime, bool))
    requires
        -0x1_0000_0000_0000_0000_0000_0000 <= total <= 0x1_0000_0000_0000_0000_0000_0000,
        nanosecond < 1_000_000_000,
    ensures
        wrapped_instant(r, total as int, nanosecond as int),
        r.0.time.wf(),
        r.0.time.second < 60,
{
    let (days, seconds) = floor_div_mod(total, 86_400);
    proof {
        assert(-0x1_0000_0000_0000_0000_0000_0000 <= days <= 0x1_0000_0000_0000_0000_0000_0000)
            by (nonlinear_arith)
            requires
                days == (total as int) / 86_400int,
                -0x1_0000_0000_0000_0000_0000_0000 <= total <= 0x1_0000_0000_0000_0000_0000_0000,
        ;
    }
    let (date, overflow) = Date::from_day_count_wrapping(days + UNIX_EPOCH_DAYS as i128);
    let (minutes, second) = floor_div_mod(seconds, 60);
    let (hour, minute) = floor_div_mod(minutes, 60);
    let time = Time { hour: hour as u8, minute: minute as u8, second: second as u8, nanosecond };
    proof {
        assert(hour / 24 == 0);
        vstd::arithmetic::div_mod::lemma_small_mod(hour as nat, 24);
    }
    (NaiveDateTime { date, time }, overflow)
}

impl NaiveDateTime {
    /// The fields in the order in which date-times compare: by date, then
    /// by time.
    pub open spec fn key(self) -> Seq<i64> {
        self.date.key() + self.time.key()
    }

    /// The date and the time are both well formed.
    pub open spec fn wf(self) -> bool {
        self.date.wf() && self.time.wf()
    }

    /// Whole seconds since the epoch, a leap second counted as any other.
    pub open spec fn seconds_since_epoch(self) -> int {
        (self.date.day_count() - UNIX_EPOCH_DAYS) * 86_400 + self.time.seconds_of_day()
    }

    pub fn new(date: Date, time: Time) -> (r: NaiveDateTime)
        ensures
            r == (NaiveDateTime { date, time }),
    {
        NaiveDateTime { date, time }
    }

    /// The date-time of a timestamp, whose day must be one of a year that
    /// fits in an `i16`.
    pub fn from_timestamp(timestamp: Timestamp) -> (r: NaiveDateTime)
        requires
            day_count_in_range(timestamp.seconds / 86_400 + UNIX_EPOCH_DAYS),
            timestamp.nanoseconds < 1_000_000_000,
        ensures
            r.wf(),
            r.time.second < 60,
            r.seconds_since_epoch() == timestamp.seconds,
            r.time.nanosecond == timestamp.nanoseconds,
    {
        let (r, _) = from_seconds_wrapping(timestamp.seconds as i128, timestamp.nanoseconds);
        proof {
            let days = timestamp.seconds / 86_400 + UNIX_EPOCH_DAYS;
            let len = crate::date::max_day_count() - crate::date::min_day_count() + 1;
            vstd::arithmetic::div_mod::lemma_small_mod(
                (days - crate::date::min_day_count()) as nat,
                len as nat,
            );
            let s = timestamp.seconds % 86_400;
            assert(r.time.seconds_of_day() == s);
        }
        r
    }

    /// The date-time of a timestamp, or `None` where its day is not one of
    /// a year that fits in an `i16` or its nanoseconds make a second or more.
    pub fn from_timestamp_checked(timestamp: Timestamp) -> (r: Option<NaiveDateTime>)
        ensures
            !(day_count_in_range(timestamp.seconds / 86_400 + UNIX_EPOCH_DAYS)
                && timestamp.nanoseconds < 1_000_000_000) ==> r is None,
            (day_count_in_range(timestamp.seconds / 86_400 + UNIX_EPOCH_DAYS)
                && timestamp.nanoseconds < 1_000_000_000) ==> (r matches Some(d) && {
                &&& d.wf()
                &&& d.time.second < 60
                &&& d.seconds_since_epoch() == timestamp.seconds
                &&& d.time.nanosecond == timestamp.nanoseconds
            }),
    {
        let (days, _) = floor_div_mod(timestamp.seconds as i128, 86_400);
        if timestamp.nanoseconds < 1_000_000_000 && crate::date::day_count_in_range_exec(
            days + UNIX_EPOCH_DAYS as i128,
        ) {
            Some(NaiveDateTime::from_timestamp(timestamp))
        } else {
            None
        }
    }

    /// The timestamp of the date-time.
    pub fn timestamp(self) -> (r: Timestamp)
        ensures
            r.seconds == self.seconds_since_epoch(),
            r.nanoseconds == self.time.nanosecond,
    {
        proof {
            lemma_day_count_bounds(self.date);
        }
        let days: i64 = self.date.days_after_common_era() - UNIX_EPOCH_DAYS;
        let seconds: i64 = days * 86_400 + self.time.seconds_from_midnight() as i64;
        Timestamp { seconds, nanoseconds: self.time.nanosecond }
    }
    pub fn date(self) -> (r: Date)
        ensures
            r == self.date,
    {
        self.date
    }

    pub fn time(self) -> (r: Time)
        ensures
            r == self.time,
    {
        self.time
    }

    pub fn year(self) -> (r: Year)
        ensures
            r == self.date.year,
    {
        self.date.year()
    }

    pub fn month(self) -> (r: Month)
        ensures
            r == self.date.month,
    {
        self.date.month()
    }

    pub fn day(self) -> (r: u8)
        ensures
            r == self.date.day,
    {
        self.date.day()
    }

    pub fn hour(self) -> (r: u8)
        ensures
            r == self.time.hour,
    {
        self.time.hour()
    }

    pub fn minute(self) -> (r: u8)
        ensures
            r == self.time.minute,
    {
        self.time.minute()
    }

    pub fn second(self) -> (r: u8)
        ensures
            r == self.time.second,
    {
        self.time.second()
    }

    pub fn microsecond(self) -> (r: u32)
        ensures
            r == self.time.nanosecond / 1_000,
    {
        self.time.microsecond()
    }

    pub fn nanosecond(self) -> (r: u32)
        ensures
            r == self.time.nanosecond,
    {
        self.time.nanosecond()
    }

    pub fn millisecond(self) -> (r: u16)
        ensures
            r == self.time.nanosecond / 1_000_000,
    {
        self.time.millisecond()
    }

    /// The same date-time `years` years later; as `Date::add_years_overflowing`.
    pub fn add_years_overflowing(self, years: i16) -> (r: Result<
        (NaiveDateTime, bool),
        LeapDayNotInLeapYearError,
    >)
        ensures
            ({
                match self.date.add_years_overflowing_spec(years as int) {
                    Ok((date, overflow)) => r == Ok::<
                        (NaiveDateTime, bool),
                        LeapDayNotInLeapYearError,
                    >((NaiveDateTime { date, time: self.time }, overflow)),
                    Err(e) => r == Err::<(NaiveDateTime, bool), LeapDayNotInLeapYearError>(e),
                }
            }),
    {
        match self.date.add_years_overflowing(years) {
            Ok((date, overflow)) => Ok((NaiveDateTime { date, time: self.time }, overflow)),
            Err(e) => Err(e),
        }
    }

    /// The same date-time `months` months later; as `Date::add_months_overflowing`.
    pub fn add_months_overflowing(self, months: i8) -> (r: Result<
        (NaiveDateTime, bool),
        DayGreaterThanMaximumForMonthError,
    >)
        ensures
            ({
                match self.date.add_months_overflowing_spec(months as int) {
                    Ok((date, overflow)) => r == Ok::<
                        (NaiveDateTime, bool),
                        DayGreaterThanMaximumForMonthError,
                    >((NaiveDateTime { date, time: self.time }, overflow)),
                    Err(e) => r == Err::<(NaiveDateTime, bool), DayGreaterThanMaximumForMonthError>(
                        e,
                    ),
                }
            }),
    {
        match self.date.add_months_overflowing(months) {
            Ok((date, overflow)) => Ok((NaiveDateTime { date, time: self.time }, overflow)),
            Err(e) => Err(e),
        }
    }

    /// The same time `days` days later; as `Date::add_days_overflowing`.
    pub fn add_days_overflowing(self, days: i64) -> (r: (NaiveDateTime, bool))
        ensures
            r.0.date.wf(),
            r.0.date.day_count() == wrap_day_count(self.date.day_count() + days),
            r.0.time == self.time,
            r.1 == !day_count_in_range(self.date.day_count() + days),
    {
        let (date, overflow) = self.date.add_days_overflowing(days);
        (NaiveDateTime { date, time: self.time }, overflow)
    }

    /// The date-time `hours` hours later, every day being 86 400 seconds
    /// long; where it leaves the supported years its day count wraps, and
    /// the flag says so.
    pub fn add_hours_overflowing(self, hours: i64) -> (r: (NaiveDateTime, bool))
        requires
            self.time.nanosecond < 1_000_000_000,
        ensures
            wrapped_instant(r, self.seconds_since_epoch() + hours * 3_600, self.time.nanosecond as int),
    {
        let t = self.timestamp();
        from_seconds_wrapping(t.seconds as i128 + hours as i128 * 3_600, t.nanoseconds)
    }

    /// The date-time `minutes` minutes later; as `add_hours_overflowing`.
    pub fn add_minutes_overflowing(self, minutes: i64) -> (r: (NaiveDateTime, bool))
        requires
            self.time.nanosecond < 1_000_000_000,
        ensures
            wrapped_instant(r, self.seconds_since_epoch() + minutes * 60, self.time.nanosecond as int),
    {
        let t = self.timestamp();
        from_seconds_wrapping(t.seconds as i128 + minutes as i128 * 60, t.nanoseconds)
    }

    /// The date-time `seconds` seconds later; as `add_hours_overflowing`.
    pub fn add_seconds_overflowing(self, seconds: i64) -> (r: (NaiveDateTime, bool))
        requires
            self.time.nanosecond < 1_000_000_000,
        ensures
            wrapped_instant(r, self.seconds_since_epoch() + seconds, self.time.nanosecond as int),
    {
        let t = self.timestamp();
        from_seconds_wrapping(t.seconds as i128 + seconds as i128, t.nanoseconds)
    }

    /// The date-time `nanoseconds` nanoseconds later; as `add_hours_overflowing`.
    pub fn add_nanoseconds_overflowing(self, nanoseconds: i64) -> (r: (NaiveDateTime, bool))
        ensures
            ({
                let total = self.seconds_since_epoch() * 1_000_000_000 + self.time.nanosecond
                    + nanoseconds;
                wrapped_instant(r, total / 1_000_000_000, total % 1_000_000_000)
            }),
    {
        let t = self.timestamp();
        proof {
            lemma_day_count_bounds(self.date);
        }
        let total: i128 = t.seconds as i128 * 1_000_000_000 + t.nanoseconds as i128
            + nanoseconds as i128;
        let (seconds, nanosecond) = floor_div_mod(total, 1_000_000_000);
        proof {
            assert(-0x1_0000_0000_0000_0000_0000_0000 <= seconds
                <= 0x1_0000_0000_0000_0000_0000_0000) by (nonlinear_arith)
                requires
                    seconds == (total as int) / 1_000_000_000int,
                    -0x1_0000_0000_0000_0000_0000_0000 <= total
                        <= 0x1_0000_0000_0000_0000_0000_0000,
            ;
        }
        from_seconds_wrapping(seconds, nanosecond as u32)
    }
}

/// Converting a well-formed date-time that is not a leap second to its
/// timestamp and back gives the same date-time: such date-times are fixed by
/// their seconds and nanoseconds.
pub proof fn lemma_timestamp_round_trip(t: NaiveDateTime, r: NaiveDateTime)
    requires
        t.wf(),
        t.time.second < 60,
        r.wf(),
        r.time.second < 60,
        r.seconds_since_epoch() == t.seconds_since_epoch(),
        r.time.nanosecond == t.time.nanosecond,
    ensures
        r == t,
{
    let (a, b) = (t.date.day_count() - UNIX_EPOCH_DAYS, r.date.day_count() - UNIX_EPOCH_DAYS);
    let (st, sr) = (t.time.seconds_of_day(), r.time.seconds_of_day());
    assert(0 <= st < 86_400 && 0 <= sr < 86_400);
    assert(a == b) by (nonlinear_arith)
        requires
            a * 86_400 + st == b * 86_400 + sr,
            0 <= st < 86_400,
            0 <= sr < 86_400,
    ;
    lemma_day_count_round_trip(t.date, r.date);
    let (mt, mr) = (t.time.minutes_of_day(), r.time.minutes_of_day());
    assert(mt == mr) by (nonlinear_arith)
        requires
            mt * 60 + t.time.second == mr * 60 + r.time.second,
            0 <= t.time.second < 60,
            0 <= r.time.second < 60,
    ;
    assert(t.time.hour == r.time.hour) by (nonlinear_arith)
        requires
            t.time.hour * 60 + t.time.minute == r.time.hour * 60 + r.time.minute,
            0 <= t.time.minute < 60,
            0 <= r.time.minute < 60,
    ;
}

/// The timestamp of a well-formed date-time that is not a leap second may
/// be turned back into a date-time.
pub proof fn lemma_timestamp_in_range(t: NaiveDateTime)
    requires
        t.wf(),
        t.time.second < 60,
    ensures
        day_count_in_range(t.seconds_since_epoch() / 86_400 + UNIX_EPOCH_DAYS),
{
    let sod = t.time.seconds_of_day();
    let dc = t.date.day_count();
    vstd::arithmetic::div_mod::lemma_fundamental_div_mod_converse(
        t.seconds_since_epoch(),
        86_400,
        dc - UNIX_EPOCH_DAYS,
        sod,
    );
    assert(t.seconds_since_epoch() / 86_400 == dc - UNIX_EPOCH_DAYS);
    lemma_days_before_year_monotone(i16::MIN as int, t.date.year.value());
    lemma_days_before_year_monotone(t.date.year.value() + 1, i16::MAX + 1);
    crate::date::lemma_year_length(t.date.year.value());
}

impl From<NaiveDateTime> for Timestamp {
    fn from(date_time: NaiveDateTime) -> (r: Timestamp) {
        date_time.timestamp()
    }
}

impl vstd::std_specs::convert::FromSpecImpl<NaiveDateTime> for Timestamp {
    open spec fn obeys_from_spec() -> bool {
        true
    }

    open spec fn from_spec(date_time: NaiveDateTime) -> Timestamp {
        Timestamp {
            seconds: date_time.seconds_since_epoch() as i64,
            nanoseconds: date_time.time.nanosecond,
        }
    }
}

impl PartialOrd for NaiveDateTime {
    fn partial_cmp(&self, other: &NaiveDateTime) -> (r: Option<Ordering>) {
        let a = vec![self.date.year.0 as i64, self.date.month.number() as i64, self.date.day as i64, self.time.hour as i64, self.time.minute as i64, self.time.second as i64, self.time.nanosecond as i64];
        let b = vec![other.date.year.0 as i64, other.date.month.number() as i64, other.date.day as i64, other.time.hour as i64, other.time.minute as i64, other.time.second as i64, other.time.nanosecond as i64];
        assert(a@ == self.key());
        assert(b@ == other.key());
        Some(compare_lex(&a, &b))
    }
}

impl vstd::std_specs::cmp::PartialOrdSpecImpl for NaiveDateTime {
    open spec fn obeys_partial_cmp_spec() -> bool {
        true
    }

    open spec fn partial_cmp_spec(&self, other: &NaiveDateTime) -> Option<Ordering> {
        Some(lex_cmp(self.key(), other.key()))
    }
}

} // verus!
