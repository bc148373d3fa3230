//! Calendar dates, times of day, naive and zoned date-times, and a
//! leap-second aware TAI time scale.
mod arith;
mod date;
mod datetime;
mod month;
mod naive;
pub mod tai;
mod text;
mod time;
mod timestamp;
pub mod timezone;
mod weekday;
mod year;

pub use date::{
    Date, DayGreaterThanMaximumForMonthError, InvalidDateError, LeapDayNotInLeapYearError,
};
pub use datetime::DateTime;
pub use month::{Month, ParseMonthError};
pub use naive::NaiveDateTime;
pub use time::{InvalidTimeError, Time};
pub use timestamp::Timestamp;
pub use timezone::TimeZone;
pub use weekday::{ParseWeekdayError, Weekday};
pub use year::Year;
