use vstd::prelude::*;

use core::cmp::Ordering;

use crate::arith::{compare_lex, floor_div_mod, lex_cmp};
use crate::month::Month;
use crate::year::{fits_i16, is_leap, wrap_i16, Year};

verus! {

/// The number of days from 1 January of year 1 to 1 January of year `y`
/// (negative for earlier years), in the proleptic Gregorian calendar.
pub open spec fn days_before_year(y: int) -> int {
    let p = y - 1;
    365 * p + p / 4 - p / 100 + p / 400
}

/// The smallest day count of a date whose year fits in an `i16`.
pub open spec fn min_day_count() -> int {
    days_before_year(i16::MIN as int)
}

/// The largest day count of a date whose year fits in an `i16`.
pub open spec fn max_day_count() -> int {
    days_before_year(i16::MAX + 1) - 1
}

/// Whether `n` is the day count of some date whose year fits in an `i16`.
pub open spec fn day_count_in_range(n: int) -> bool {
    min_day_count() <= n <= max_day_count()
}

/// `n` moved into the supported day counts by a whole number of spans of
/// all of them; `n` itself where it is already in range.
pub open spec fn wrap_day_count(n: int) -> int {
    let len = max_day_count() - min_day_count() + 1;
    min_day_count() + (n - min_day_count()) % len
}

/// A calendar date: a year, a month and a day of that month.
#[derive(Copy, Clone, PartialEq, Eq, Structural, Hash, Debug, Ord)]
pub struct Date {
    pub year: Year,
    pub month: Month,
    pub day: u8,
}

/// A day that is past the end of its month.
#[derive(Copy, Clone, PartialEq, Eq, Structural, Hash, Debug)]
pub struct DayGreaterThanMaximumForMonthError {
    pub month: Month,
    pub given_day: u8,
    pub month_max_day: u8,
}

/// 29 February in a year that is not a leap year; holds that year.
#[derive(Copy, Clone, PartialEq, Eq, Structural, Hash, Debug)]
pub struct LeapDayNotInLeapYearError(pub Year);

/// Why a year, month and day do not make a date.
#[derive(Copy, Clone, PartialEq, Eq, Structural, Hash, Debug)]
pub enum InvalidDateError {
    /// Days are counted from 1.
    DayZero,
    DayTooBig(DayGreaterThanMaximumForMonthError),
    NonLeapYear(LeapDayNotInLeapYearError),
}

/// The length of year `y` in days.
pub proof fn lemma_year_length(y: int)
    ensures
        days_before_year(y + 1) - days_before_year(y) == if is_leap(y) { 366int } else { 365int },
{
    let p = y - 1;
    assert((p + 1) / 4 - p / 4 == if y % 4 == 0 { 1int } else { 0int });
    assert((p + 1) / 100 - p / 100 == if y % 100 == 0 { 1int } else { 0int });
    assert((p + 1) / 400 - p / 400 == if y % 400 == 0 { 1int } else { 0int });
}

/// Later years start later.
pub proof fn lemma_days_before_year_monotone(a: int, b: int)
    requires
        a <= b,
    ensures
        days_before_year(a) + 365 * (b - a) <= days_before_year(b),
    decreases b - a,
{
    if a < b {
        lemma_days_before_year_monotone(a, b - 1);
        lemma_year_length(b - 1);
    }
}

/// `days_before_year`, for the years that the calendar can reach.
fn days_before_year_exec(y: i64) -> (r: i64)
    requires
        i16::MIN <= y <= i16::MAX + 1,
    ensures
        r == days_before_year(y as int),
{
    // 32800 years are a whole number of 400-year cycles; the shift makes
    // every quotient below one of non-negative numbers.
    let q: u64 = (y - 1 + 32800) as u64;
    proof {
        let p = y - 1;
        assert(p / 4 == (p + 32800) / 4 - 8200);
        assert(p / 100 == (p + 32800) / 100 - 328);
        assert(p / 400 == (p + 32800) / 400 - 82);
    }
    365 * (y - 1) + ((q / 4) as i64 - 8200) - ((q / 100) as i64 - 328) + ((q / 400) as i64 - 82)
}

/// Whether `n` is the day count of a date whose year fits in an `i16`.
pub fn day_count_in_range_exec(n: i128) -> (r: bool)
    ensures
        r == day_count_in_range(n as int),
{
    let min: i64 = days_before_year_exec(-32768);
    let max: i64 = days_before_year_exec(32768) - 1;
    min as i128 <= n && n <= max as i128
}

impl Date {
    /// The fields in the order in which dates compare.
    pub open spec fn key(self) -> Seq<i64> {
        seq![self.year.value() as i64, self.month.num() as i64, self.day as i64]
    }

    /// The day is a day of its month, in its year.
    pub open spec fn wf(self) -> bool {
        1 <= self.day <= self.month.days_in(is_leap(self.year.value()))
    }

    /// The zero-based day of the year.
    pub open spec fn ordinal(self) -> int {
        self.month.ordinal_start(is_leap(self.year.value())) + self.day - 1
    }

    /// The number of days after 1 January of year 1 (negative before it).
    pub open spec fn day_count(self) -> int {
        days_before_year(self.year.value()) + self.ordinal()
    }

    /// The result of `add_years_overflowing`.
    pub open spec fn add_years_overflowing_spec(self, years: int) -> Result<
        (Date, bool),
        LeapDayNotInLeapYearError,
    > {
        let target = Year(wrap_i16(self.year.value() + years) as i16);
        if self.month == Month::February && self.day == 29 && !is_leap(target.value()) {
            Err(LeapDayNotInLeapYearError(target))
        } else {
            Ok((Date { year: target, ..self }, !fits_i16(self.year.value() + years)))
        }
    }

    /// The result of `add_months_overflowing`.
    pub open spec fn add_months_overflowing_spec(self, months: int) -> Result<
        (Date, bool),
        DayGreaterThanMaximumForMonthError,
    > {
        let month = Month::of_num((self.month.num() - 1 + months) % 12 + 1)->Some_0;
        let sum = self.year.value() + (self.month.num() - 1 + months) / 12;
        let year = Year(wrap_i16(sum) as i16);
        let max = month.days_in(is_leap(year.value()));
        if self.day > max {
            Err(DayGreaterThanMaximumForMonthError { month, given_day: self.day, month_max_day: max as u8 })
        } else {
            Ok((Date { year, month, day: self.day }, !fits_i16(sum)))
        }
    }

    /// Makes a date of a year, month and day that are known to make one.
    pub fn from_ymd_unchecked(year: Year, month: Month, day: u8) -> (r: Date)
        requires
            (Date { year, month, day }).wf(),
        ensures
            r == (Date { year, month, day }),
    {
        Date { year, month, day }
    }

    /// Makes a date, or says why the year, month and day make none.
    pub fn from_ymd(year: Year, month: Month, day: u8) -> (r: Result<Date, InvalidDateError>)
        ensures
            day == 0 ==> r == Err::<Date, InvalidDateError>(InvalidDateError::DayZero),
            (Date { year, month, day }).wf() ==> r == Ok::<Date, InvalidDateError>(
                Date { year, month, day },
            ),
            (month == Month::February && day == 29 && !is_leap(year.value())) ==> r == Err::<
                Date,
                InvalidDateError,
            >(InvalidDateError::NonLeapYear(LeapDayNotInLeapYearError(year))),
            (day > 0 && !(Date { year, month, day }).wf() && !(month == Month::February && day
                == 29)) ==> r
                == Err::<Date, InvalidDateError>(
                InvalidDateError::DayTooBig(
                    DayGreaterThanMaximumForMonthError {
                        month,
                        given_day: day,
                        month_max_day: month.days_in(is_leap(year.value())) as u8,
                    },
                ),
            ),
    {
        let leap = year.is_leap_year();
        let max = month.days(leap);
        if day == 0 {
            Err(InvalidDateError::DayZero)
        } else if day <= max {
            Ok(Date { year, month, day })
        } else if month == Month::February && day == 29 {
            Err(InvalidDateError::NonLeapYear(LeapDayNotInLeapYearError(year)))
        } else {
            Err(
                InvalidDateError::DayTooBig(
                    DayGreaterThanMaximumForMonthError { month, given_day: day, month_max_day: max },
                ),
            )
        }
    }

    pub fn year(self) -> (r: Year)
        ensures
            r == self.year,
    {
        self.year
    }

    pub fn month(self) -> (r: Month)
        ensures
            r == self.month,
    {
        self.month
    }

    pub fn day(self) -> (r: u8)
        ensures
            r == self.day,
    {
        self.day
    }

    pub fn is_leap_year(self) -> (r: bool)
        ensures
            r == is_leap(self.year.value()),
    {
        self.year.is_leap_year()
    }

    /// The number of days after 1 January of year 1; negative before it.
    pub fn days_after_common_era(self) -> (r: i64)
        ensures
            r == self.day_count(),
    {
        let leap = self.year.is_leap_year();
        let month_start: i64 = self.month.last_day_ordinal(leap) as i64 - self.month.days(leap) as i64;
        days_before_year_exec(self.year.0 as i64) + month_start + self.day as i64 - 1
    }

    /// The date with the given day count.
    pub fn from_days_after_common_era(days: i64) -> (r: Date)
        requires
            day_count_in_range(days as int),
        ensures
            r.wf(),
            r.day_count() == days,
    {
        proof {
            lemma_days_before_year_monotone(i16::MIN as int, i16::MAX + 1);
        }
        // 82 cycles of 400 years, which makes the count non-negative.
        let shifted: u64 = (days + 11_979_954) as u64;
        let estimate: i64 = (shifted * 400 / 146_097) as i64 - 32_799;
        let mut y: i64 = if estimate < -32768 {
            -32768
        } else if estimate > 32767 {
            32767
        } else {
            estimate
        };
        while y < 32767 && days_before_year_exec(y + 1) <= days
            invariant
                -32768 <= y <= 32767,
                day_count_in_range(days as int),
            decreases 32767 - y,
        {
            y = y + 1;
        }
        proof {
            if y == 32767 {
                assert(days < days_before_year(y + 1));
            }
        }
        while y > -32768 && days_before_year_exec(y) > days
            invariant
                -32768 <= y <= 32767,
                day_count_in_range(days as int),
                days < days_before_year(y + 1),
            decreases y + 32768,
        {
            y = y - 1;
        }
        let year = Year(y as i16);
        let leap = year.is_leap_year();
        let ordinal: i64 = days - days_before_year_exec(y);
        proof {
            lemma_year_length(y as int);
        }
        let month = Month::from_ordinal(ordinal as u16, leap);
        let day: i64 = ordinal - (month.last_day_ordinal(leap) as i64 - month.days(leap) as i64) + 1;
        Date { year, month, day: day as u8 }
    }
    /// The date `days` days later (earlier, for a negative count).
    pub fn add_days(self, days: i64) -> (r: Date)
        requires
            day_count_in_range(self.day_count() + days),
        ensures
            r.wf(),
            r.day_count() == self.day_count() + days,
    {
        Date::from_days_after_common_era(self.days_after_common_era() + days)
    }

    /// The date with day count `n`, or, where `n` is out of range, with `n`
    /// wrapped back into range; the flag says whether it was out of range.
    pub fn from_day_count_wrapping(n: i128) -> (r: (Date, bool))
        requires
            -0x1_0000_0000_0000_0000_0000_0000 <= n <= 0x1_0000_0000_0000_0000_0000_0000,
        ensures
            r.0.wf(),
            r.0.day_count() == wrap_day_count(n as int),
            r.1 == !day_count_in_range(n as int),
    {
        let min: i64 = days_before_year_exec(-32768);
        let len: i64 = days_before_year_exec(32768) - min;
        let offset: i128 = n - min as i128;
        let (_, wrapped) = floor_div_mod(offset, len as i128);
        let in_range = 0 <= offset && offset < len as i128;
        proof {
            if in_range {
                vstd::arithmetic::div_mod::lemma_small_mod(offset as nat, len as nat);
            }
        }
        (Date::from_days_after_common_era((min as i128 + wrapped) as i64), !in_range)
    }

    /// The date `days` days later, and whether the move left the supported
    /// years; where it did, the day count is wrapped back into range.
    pub fn add_days_overflowing(self, days: i64) -> (r: (Date, bool))
        ensures
            r.0.wf(),
            r.0.day_count() == wrap_day_count(self.day_count() + days),
            r.1 == !day_count_in_range(self.day_count() + days),
    {
        Date::from_day_count_wrapping(self.days_after_common_era() as i128 + days as i128)
    }

    /// The same day and month `years` years later; fails where that is
    /// 29 February of a year that is not a leap year, naming that year.
    pub fn add_years(self, years: i16) -> (r: Result<Date, LeapDayNotInLeapYearError>)
        requires
            fits_i16(self.year.value() + years),
        ensures
            ({
                let target = Year((self.year.value() + years) as i16);
                if self.month == Month::February && self.day == 29 && !is_leap(target.value()) {
                    r == Err::<Date, LeapDayNotInLeapYearError>(LeapDayNotInLeapYearError(target))
                } else {
                    r == Ok::<Date, LeapDayNotInLeapYearError>(Date { year: target, ..self })
                }
            }),
    {
        match self.add_years_overflowing(years) {
            Ok((date, _)) => Ok(date),
            Err(e) => Err(e),
        }
    }

    /// As `add_years`, with the year wrapped into the range of `i16` and a
    /// flag saying whether it wrapped.
    pub fn add_years_overflowing(self, years: i16) -> (r: Result<
        (Date, bool),
        LeapDayNotInLeapYearError,
    >)
        ensures
            r == self.add_years_overflowing_spec(years as int),
    {
        let (year, overflow) = self.year.overflowing_add(years);
        if self.day == 29 && self.month == Month::February && !year.is_leap_year() {
            Err(LeapDayNotInLeapYearError(year))
        } else {
            Ok((Date { year, month: self.month, day: self.day }, overflow))
        }
    }

    /// The same day `months` months later (earlier, for a negative count);
    /// fails where the day is past the end of the month reached, naming that
    /// month, the day and the month's last day.
    pub fn add_months(self, months: i8) -> (r: Result<Date, DayGreaterThanMaximumForMonthError>)
        requires
            fits_i16(self.year.value() + (self.month.num() - 1 + months) / 12),
        ensures
            ({
                let month = Month::of_num((self.month.num() - 1 + months) % 12 + 1)->Some_0;
                let year = Year((self.year.value() + (self.month.num() - 1 + months) / 12) as i16);
                let max = month.days_in(is_leap(year.value()));
                if self.day > max {
                    r == Err::<Date, DayGreaterThanMaximumForMonthError>(
                        DayGreaterThanMaximumForMonthError {
                            month,
                            given_day: self.day,
                            month_max_day: max as u8,
                        },
                    )
                } else {
                    r == Ok::<Date, DayGreaterThanMaximumForMonthError>(
                        Date { year, month, day: self.day },
                    )
                }
            }),
    {
        match self.add_months_overflowing(months) {
            Ok((date, _)) => Ok(date),
            Err(e) => Err(e),
        }
    }

    /// As `add_months`, with the year wrapped into the range of `i16` and a
    /// flag saying whether it wrapped.
    pub fn add_months_overflowing(self, months: i8) -> (r: Result<
        (Date, bool),
        DayGreaterThanMaximumForMonthError,
    >)
        ensures
            r == self.add_months_overflowing_spec(months as int),
    {
        let (month, years) = self.month.add_overflowing(months);
        let (year, overflow) = self.year.overflowing_add(years);
        let max = month.days(year.is_leap_year());
        proof {
            assert(month == Month::of_num(month.num())->Some_0);
        }
        if self.day > max {
            Err(DayGreaterThanMaximumForMonthError { month, given_day: self.day, month_max_day: max })
        } else {
            Ok((Date { year, month, day: self.day }, overflow))
        }
    }
}

/// Converting a well-formed date to its day count and back gives the same
/// date: no two well-formed dates share a day count.
pub proof fn lemma_day_count_round_trip(d: Date, r: Date)
    requires
        d.wf(),
        r.wf(),
        r.day_count() == d.day_count(),
    ensures
        r == d,
{
    let (yd, yr) = (d.year.value(), r.year.value());
    lemma_year_length(yd);
    lemma_year_length(yr);
    if yd < yr {
        lemma_days_before_year_monotone(yd + 1, yr);
    } else if yr < yd {
        lemma_days_before_year_monotone(yr + 1, yd);
    }
    assert(yd == yr);
    assert(d.year == r.year);
}

impl PartialOrd for Date {
    fn partial_cmp(&self, other: &Date) -> (r: Option<Ordering>) {
        let a = vec![self.year.0 as i64, self.month.number() as i64, self.day as i64];
        let b = vec![other.year.0 as i64, other.month.number() as i64, other.day as i64];
        assert(a@ == self.key());
        assert(b@ == other.key());
        Some(compare_lex(&a, &b))
    }
}

impl vstd::std_specs::cmp::PartialOrdSpecImpl for Date {
    open spec fn obeys_partial_cmp_spec() -> bool {
        true
    }

    open spec fn partial_cmp_spec(&self, other: &Date) -> Option<Ordering> {
        Some(lex_cmp(self.key(), other.key()))
    }
}

} // verus!
