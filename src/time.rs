use vstd::prelude::*;

use core::cmp::Ordering;

use crate::arith::{compare_lex, floor_div_mod, lex_cmp};

verus! {

/// Nanoseconds in a second.
pub const NANOS_PER_SECOND: i128 = 1_000_000_000;

/// Seconds in a day.
pub const SECONDS_PER_DAY: i128 = 86_400;

/// Nanoseconds in a day.
pub const NANOS_PER_DAY: i128 = 86_400_000_000_000;

/// A time of day: hour, minute, second and nanosecond. The second 60 stands
/// for a leap second, at 23:59:60.
#[derive(Copy, Clone, PartialEq, Eq, Structural, Hash, Debug, Ord)]
pub struct Time {
    pub hour: u8,
    pub minute: u8,
    pub second: u8,
    pub nanosecond: u32,
}

/// Fields that do not make a time of day.
#[derive(Copy, Clone, PartialEq, Eq, Structural, Hash, Debug)]
pub struct InvalidTimeError {
    pub hour: u8,
    pub minute: u8,
    pub second: u8,
    /// The fraction of a second that was given, in nanoseconds.
    pub nanosecond: u64,
}

/// Whether the fields make a time of day.
pub open spec fn valid_hmsn(hour: int, minute: int, second: int, nanosecond: int) -> bool {
    &&& 0 <= hour < 24
    &&& 0 <= minute < 60
    &&& 0 <= second <= 60
    &&& 0 <= nanosecond < NANOS_PER_SECOND
    &&& second == 60 ==> (hour == 23 && minute == 59)
}

/// The time `n` hours after midnight, the hours taken modulo a day.
pub open spec fn time_of_hours(n: int, minute: u8, second: u8, nanosecond: u32) -> Time {
    Time { hour: (n % 24) as u8, minute, second, nanosecond }
}

/// The time `n` minutes after midnight, the minutes taken modulo a day.
pub open spec fn time_of_minutes(n: int, second: u8, nanosecond: u32) -> Time {
    let hours = n / 60;
    Time { hour: (hours % 24) as u8, minute: (n % 60) as u8, second, nanosecond }
}

/// The time `n` seconds after midnight, the seconds taken modulo a day.
pub open spec fn time_of_seconds(n: int, nanosecond: u32) -> Time {
    let minutes = n / 60;
    let hours = minutes / 60;
    Time {
        hour: (hours % 24) as u8,
        minute: (minutes % 60) as u8,
        second: (n % 60) as u8,
        nanosecond,
    }
}

/// The time `n` nanoseconds after midnight, the nanoseconds taken modulo a day.
pub open spec fn time_of_nanos(n: int) -> Time {
    let seconds = n / NANOS_PER_SECOND as int;
    let minutes = seconds / 60;
    let hours = minutes / 60;
    Time {
        hour: (hours % 24) as u8,
        minute: (minutes % 60) as u8,
        second: (seconds % 60) as u8,
        nanosecond: (n % NANOS_PER_SECOND as int) as u32,
    }
}

impl Time {
    /// The fields in the order in which times compare.
    pub open spec fn key(self) -> Seq<i64> {
        seq![self.hour as i64, self.minute as i64, self.second as i64, self.nanosecond as i64]
    }

    /// The fields make a time of day.
    pub open spec fn wf(self) -> bool {
        valid_hmsn(self.hour as int, self.minute as int, self.second as int, self.nanosecond as int)
    }

    /// Whole minutes since midnight.
    pub open spec fn minutes_of_day(self) -> int {
        self.hour * 60 + self.minute
    }

    /// Whole seconds since midnight, a leap second counted as any other.
    pub open spec fn seconds_of_day(self) -> int {
        self.minutes_of_day() * 60 + self.second
    }

    /// Nanoseconds since midnight.
    pub open spec fn nanos_of_day(self) -> int {
        self.seconds_of_day() * NANOS_PER_SECOND + self.nanosecond
    }

    /// The time `n` hours later, and whether it crossed midnight.
    pub open spec fn plus_hours(self, n: int) -> (Time, bool) {
        (
            time_of_hours(self.hour + n, self.minute, self.second, self.nanosecond),
            !(0 <= self.hour + n < 24),
        )
    }

    /// The time `n` minutes later, and whether it crossed midnight.
    pub open spec fn plus_minutes(self, n: int) -> (Time, bool) {
        (
            time_of_minutes(self.minutes_of_day() + n, self.second, self.nanosecond),
            !(0 <= self.minutes_of_day() + n < 1440),
        )
    }

    /// The time `n` seconds later, and whether it crossed midnight.
    pub open spec fn plus_seconds(self, n: int) -> (Time, bool) {
        (
            time_of_seconds(self.seconds_of_day() + n, self.nanosecond),
            !(0 <= self.seconds_of_day() + n < SECONDS_PER_DAY),
        )
    }

    /// The time `n` nanoseconds later, and whether it crossed midnight.
    pub open spec fn plus_nanos(self, n: int) -> (Time, bool) {
        (
            time_of_nanos(self.nanos_of_day() + n),
            !(0 <= self.nanos_of_day() + n < NANOS_PER_DAY),
        )
    }

    /// Makes a time of an hour, minute and second that are known to make one.
    pub fn from_hms_unchecked(hour: u8, minute: u8, second: u8) -> (r: Time)
        requires
            valid_hmsn(hour as int, minute as int, second as int, 0),
        ensures
            r == (Time { hour, minute, second, nanosecond: 0 }),
    {
        Time { hour, minute, second, nanosecond: 0 }
    }

    /// Makes a time of fields that are known to make one.
    pub fn from_hms_milli_unchecked(hour: u8, minute: u8, second: u8, millisecond: u16) -> (r: Time)
        requires
            valid_hmsn(hour as int, minute as int, second as int, millisecond * 1_000_000),
        ensures
            r == (Time { hour, minute, second, nanosecond: (millisecond * 1_000_000) as u32 }),
    {
        Time { hour, minute, second, nanosecond: millisecond as u32 * 1_000_000 }
    }

    /// Makes a time of fields that are known to make one.
    pub fn from_hms_micro_unchecked(hour: u8, minute: u8, second: u8, microsecond: u32) -> (r: Time)
        requires
            valid_hmsn(hour as int, minute as int, second as int, microsecond * 1_000),
        ensures
            r == (Time { hour, minute, second, nanosecond: (microsecond * 1_000) as u32 }),
    {
        Time { hour, minute, second, nanosecond: microsecond * 1_000 }
    }

    /// Makes a time of fields that are known to make one.
    pub fn from_hms_nano_unchecked(hour: u8, minute: u8, second: u8, nanosecond: u32) -> (r: Time)
        requires
            valid_hmsn(hour as int, minute as int, second as int, nanosecond as int),
        ensures
            r == (Time { hour, minute, second, nanosecond }),
    {
        Time { hour, minute, second, nanosecond }
    }

    /// Makes a time, or returns the fields in an error where they make none.
    pub fn from_hms_nano(hour: u8, minute: u8, second: u8, nanosecond: u32) -> (r: Result<
        Time,
        InvalidTimeError,
    >)
        ensures
            valid_hmsn(hour as int, minute as int, second as int, nanosecond as int) ==> r == Ok::<
                Time,
                InvalidTimeError,
            >(Time { hour, minute, second, nanosecond }),
            !valid_hmsn(hour as int, minute as int, second as int, nanosecond as int) ==> r
                == Err::<Time, InvalidTimeError>(
                InvalidTimeError { hour, minute, second, nanosecond: nanosecond as u64 },
            ),
    {
        if hour >= 24 || minute >= 60 || second > 60 || nanosecond >= 1_000_000_000 || (second == 60
            && (minute != 59 || hour != 23)) {
            Err(InvalidTimeError { hour, minute, second, nanosecond: nanosecond as u64 })
        } else {
            Ok(Time { hour, minute, second, nanosecond })
        }
    }

    /// Makes a time with no fraction of a second.
    pub fn from_hms(hour: u8, minute: u8, second: u8) -> (r: Result<Time, InvalidTimeError>)
        ensures
            valid_hmsn(hour as int, minute as int, second as int, 0) ==> r == Ok::<
                Time,
                InvalidTimeError,
            >(Time { hour, minute, second, nanosecond: 0 }),
            !valid_hmsn(hour as int, minute as int, second as int, 0) ==> r == Err::<
                Time,
                InvalidTimeError,
            >(InvalidTimeError { hour, minute, second, nanosecond: 0 }),
    {
        Time::from_hms_nano(hour, minute, second, 0)
    }

    /// Makes a time with a number of milliseconds; a millisecond of 1000 or
    /// more is refused, the error holding it in nanoseconds.
    pub fn from_hms_milli(hour: u8, minute: u8, second: u8, millisecond: u16) -> (r: Result<
        Time,
        InvalidTimeError,
    >)
        ensures
            valid_hmsn(hour as int, minute as int, second as int, millisecond * 1_000_000) ==> r
                == Ok::<Time, InvalidTimeError>(
                Time { hour, minute, second, nanosecond: (millisecond * 1_000_000) as u32 },
            ),
            !valid_hmsn(hour as int, minute as int, second as int, millisecond * 1_000_000) ==> r
                == Err::<Time, InvalidTimeError>(
                InvalidTimeError {
                    hour,
                    minute,
                    second,
                    nanosecond: (millisecond * 1_000_000) as u64,
                },
            ),
    {
        let nanosecond: u64 = millisecond as u64 * 1_000_000;
        if nanosecond >= 1_000_000_000 {
            Err(InvalidTimeError { hour, minute, second, nanosecond })
        } else {
            Time::from_hms_nano(hour, minute, second, nanosecond as u32)
        }
    }

    /// Makes a time with a number of microseconds; a microsecond of 1_000_000
    /// or more is refused, the error holding it in nanoseconds.
    pub fn from_hms_micro(hour: u8, minute: u8, second: u8, microsecond: u32) -> (r: Result<
        Time,
        InvalidTimeError,
    >)
        ensures
            valid_hmsn(hour as int, minute as int, second as int, microsecond * 1_000) ==> r
                == Ok::<Time, InvalidTimeError>(
                Time { hour, minute, second, nanosecond: (microsecond * 1_000) as u32 },
            ),
            !valid_hmsn(hour as int, minute as int, second as int, microsecond * 1_000) ==> r
                == Err::<Time, InvalidTimeError>(
                InvalidTimeError { hour, minute, second, nanosecond: (microsecond * 1_000) as u64 },
            ),
    {
        let nanosecond: u64 = microsecond as u64 * 1_000;
        if nanosecond >= 1_000_000_000 {
            Err(InvalidTimeError { hour, minute, second, nanosecond })
        } else {
            Time::from_hms_nano(hour, minute, second, nanosecond as u32)
        }
    }

    /// The clock hour.
    pub fn hour(self) -> (r: u8)
        ensures
            r == self.hour,
    {
        self.hour
    }

    /// The minute within the hour.
    pub fn minute(self) -> (r: u8)
        ensures
            r == self.minute,
    {
        self.minute
    }

    /// The second within the minute.
    pub fn second(self) -> (r: u8)
        ensures
            r == self.second,
    {
        self.second
    }

    /// The whole milliseconds within the second.
    pub fn millisecond(self) -> (r: u16)
        ensures
            r == self.nanosecond / 1_000_000,
    {
        (self.nanosecond / 1_000_000) as u16
    }

    /// The whole microseconds within the second.
    pub fn microsecond(self) -> (r: u32)
        ensures
            r == self.nanosecond / 1_000,
    {
        self.nanosecond / 1_000
    }

    /// The nanoseconds within the second.
    pub fn nanosecond(self) -> (r: u32)
        ensures
            r == self.nanosecond,
    {
        self.nanosecond
    }
    /// Nanoseconds since midnight.
    pub fn nanoseconds_from_midnight(self) -> (r: u64)
        ensures
            r == self.nanos_of_day(),
    {
        ((self.hour as u64 * 60 + self.minute as u64) * 60 + self.second as u64) * 1_000_000_000
            + self.nanosecond as u64
    }

    /// Whole seconds since midnight.
    pub fn seconds_from_midnight(self) -> (r: u32)
        ensures
            r == self.seconds_of_day(),
    {
        (self.hour as u32 * 60 + self.minute as u32) * 60 + self.second as u32
    }

    /// Adds hours, carrying past midnight in either direction; the flag says
    /// whether the hour left `0..24`.
    pub fn add_hours_overflowing(self, hours: isize) -> (r: (Time, bool))
        ensures
            r == self.plus_hours(hours as int),
    {
        let total: i128 = self.hour as i128 + hours as i128;
        let (days, hour) = floor_div_mod(total, 24);
        (Time { hour: hour as u8, minute: self.minute, second: self.second, nanosecond: self.nanosecond }, days != 0)
    }

    /// Adds minutes, carrying into the hour and past midnight; the flag says
    /// whether the result crossed midnight.
    pub fn add_minutes_overflowing(self, minutes: isize) -> (r: (Time, bool))
        ensures
            r == self.plus_minutes(minutes as int),
    {
        let total: i128 = self.hour as i128 * 60 + self.minute as i128 + minutes as i128;
        let (hours, minute) = floor_div_mod(total, 60);
        let (days, hour) = floor_div_mod(hours, 24);
        (Time { hour: hour as u8, minute: minute as u8, second: self.second, nanosecond: self.nanosecond }, days != 0)
    }

    /// Adds seconds, carrying into the minute and hour and past midnight,
    /// every minute being 60 seconds long; the flag says whether the result
    /// crossed midnight.
    pub fn add_seconds_overflowing(self, seconds: isize) -> (r: (Time, bool))
        ensures
            r == self.plus_seconds(seconds as int),
    {
        let total: i128 = (self.hour as i128 * 60 + self.minute as i128) * 60 + self.second as i128
            + seconds as i128;
        let (minutes, second) = floor_div_mod(total, 60);
        let (hours, minute) = floor_div_mod(minutes, 60);
        let (days, hour) = floor_div_mod(hours, 24);
        (Time { hour: hour as u8, minute: minute as u8, second: second as u8, nanosecond: self.nanosecond }, days != 0)
    }

    /// Adds nanoseconds, carrying through every field and past midnight,
    /// every minute being 60 seconds long; the flag says whether the result
    /// crossed midnight.
    pub fn add_nanoseconds_overflowing(self, nanoseconds: isize) -> (r: (Time, bool))
        ensures
            r == self.plus_nanos(nanoseconds as int),
    {
        let total: i128 = ((self.hour as i128 * 60 + self.minute as i128) * 60 + self.second as i128)
            * 1_000_000_000 + self.nanosecond as i128 + nanoseconds as i128;
        let (seconds, nanosecond) = floor_div_mod(total, 1_000_000_000);
        let (minutes, second) = floor_div_mod(seconds, 60);
        let (hours, minute) = floor_div_mod(minutes, 60);
        let (days, hour) = floor_div_mod(hours, 24);
        (Time { hour: hour as u8, minute: minute as u8, second: second as u8, nanosecond: nanosecond as u32 }, days != 0)
    }

    /// Adds hours; `None` where the result crosses midnight.
    pub fn add_hours_checked(self, hours: isize) -> (r: Option<Time>)
        ensures
            r == (if self.plus_hours(hours as int).1 {
                None
            } else {
                Some(self.plus_hours(hours as int).0)
            }),
    {
        let (time, overflow) = self.add_hours_overflowing(hours);
        if overflow {
            None
        } else {
            Some(time)
        }
    }

    /// Adds hours, wrapping around midnight.
    pub fn add_hours_wrapping(self, hours: isize) -> (r: Time)
        ensures
            r == self.plus_hours(hours as int).0,
    {
        self.add_hours_overflowing(hours).0
    }

    /// Adds hours where the result is known not to cross midnight.
    pub fn add_hours(self, hours: isize) -> (r: Time)
        requires
            !self.plus_hours(hours as int).1,
        ensures
            r == self.plus_hours(hours as int).0,
    {
        self.add_hours_overflowing(hours).0
    }

    /// Adds minutes; `None` where the result crosses midnight.
    pub fn add_minutes_checked(self, minutes: isize) -> (r: Option<Time>)
        ensures
            r == (if self.plus_minutes(minutes as int).1 {
                None
            } else {
                Some(self.plus_minutes(minutes as int).0)
            }),
    {
        let (time, overflow) = self.add_minutes_overflowing(minutes);
        if overflow {
            None
        } else {
            Some(time)
        }
    }

    /// Adds minutes, wrapping around midnight.
    pub fn add_minutes_wrapping(self, minutes: isize) -> (r: Time)
        ensures
            r == self.plus_minutes(minutes as int).0,
    {
        self.add_minutes_overflowing(minutes).0
    }

    /// Adds minutes where the result is known not to cross midnight.
    pub fn add_minutes(self, minutes: isize) -> (r: Time)
        requires
            !self.plus_minutes(minutes as int).1,
        ensures
            r == self.plus_minutes(minutes as int).0,
    {
        self.add_minutes_overflowing(minutes).0
    }

    /// Adds seconds; `None` where the result crosses midnight.
    pub fn add_seconds_checked(self, seconds: isize) -> (r: Option<Time>)
        ensures
            r == (if self.plus_seconds(seconds as int).1 {
                None
            } else {
                Some(self.plus_seconds(seconds as int).0)
            }),
    {
        let (time, overflow) = self.add_seconds_overflowing(seconds);
        if overflow {
            None
        } else {
            Some(time)
        }
    }

    /// Adds seconds, wrapping around midnight.
    pub fn add_seconds_wrapping(self, seconds: isize) -> (r: Time)
        ensures
            r == self.plus_seconds(seconds as int).0,
    {
        self.add_seconds_overflowing(seconds).0
    }

    /// Adds seconds where the result is known not to cross midnight.
    pub fn add_seconds(self, seconds: isize) -> (r: Time)
        requires
            !self.plus_seconds(seconds as int).1,
        ensures
            r == self.plus_seconds(seconds as int).0,
    {
        self.add_seconds_overflowing(seconds).0
    }

    /// Adds nanoseconds; `None` where the result crosses midnight.
    pub fn add_nanoseconds_checked(self, nanoseconds: isize) -> (r: Option<Time>)
        ensures
            r == (if self.plus_nanos(nanoseconds as int).1 {
                None
            } else {
                Some(self.plus_nanos(nanoseconds as int).0)
            }),
    {
        let (time, overflow) = self.add_nanoseconds_overflowing(nanoseconds);
        if overflow {
            None
        } else {
            Some(time)
        }
    }

    /// Adds nanoseconds, wrapping around midnight.
    pub fn add_nanoseconds_wrapping(self, nanoseconds: isize) -> (r: Time)
        ensures
            r == self.plus_nanos(nanoseconds as int).0,
    {
        self.add_nanoseconds_overflowing(nanoseconds).0
    }

    /// Adds nanoseconds where the result is known not to cross midnight.
    pub fn add_nanoseconds(self, nanoseconds: isize) -> (r: Time)
        requires
            !self.plus_nanos(nanoseconds as int).1,
        ensures
            r == self.plus_nanos(nanoseconds as int).0,
    {
        self.add_nanoseconds_overflowing(nanoseconds).0
    }
}

impl PartialOrd for Time {
    fn partial_cmp(&self, other: &Time) -> (r: Option<Ordering>) {
        let a = vec![self.hour as i64, self.minute as i64, self.second as i64, self.nanosecond as i64];
        let b = vec![other.hour as i64, other.minute as i64, other.second as i64, other.nanosecond as i64];
        assert(a@ == self.key());
        assert(b@ == other.key());
        Some(compare_lex(&a, &b))
    }
}

impl vstd::std_specs::cmp::PartialOrdSpecImpl for Time {
    open spec fn obeys_partial_cmp_spec() -> bool {
        true
    }

    open spec fn partial_cmp_spec(&self, other: &Time) -> Option<Ordering> {
        Some(lex_cmp(self.key(), other.key()))
    }
}

} // verus!
