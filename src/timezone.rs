use vstd::prelude::*;

use crate::datetime::DateTime;
use crate::naive::NaiveDateTime;
use crate::text::{decimal, push_decimal, push_two_digits, two_digits};

verus! {

/// A policy that gives the offset from UTC of each instant.
pub trait TimeZone: Sized {
    /// Why a local date-time has no instant in the zone.
    type Err;

    /// Whether `r` is an offset that the zone may give at the UTC date-time
    /// `at`.
    spec fn gives_offset(&self, at: NaiveDateTime, r: UtcOffset) -> bool;

    /// Whether `r` is an answer that the zone may give for the local
    /// date-time `local`.
    spec fn gives_local_offset(&self, local: NaiveDateTime, r: Result<UtcOffset, Self::Err>) -> bool;

    /// The offset from UTC at the given instant.
    fn utc_offset(&self, date_time: DateTime<Utc>) -> (r: UtcOffset)
        ensures
            self.gives_offset(date_time.utc_datetime, r),
    ;

    /// The offset from UTC under which the given local date-time was read;
    /// an error where no instant of the zone reads so.
    fn offset_from_local_naive(&self, date_time: NaiveDateTime) -> (r: Result<UtcOffset, Self::Err>)
        ensures
            self.gives_local_offset(date_time, r),
    ;
}

/// The UTC time zone.
#[derive(Copy, Clone, PartialEq, Eq, Structural, Hash, Debug)]
pub struct Utc;

/// A time zone at a fixed number of seconds from UTC: positive east of
/// Greenwich, negative west of it.
#[derive(Copy, Clone, PartialEq, Eq, Structural, Hash, Debug)]
pub struct UtcOffset {
    pub offset_seconds: i32,
}

/// `+` or `-`, after the sign of `s`.
pub open spec fn sign_char(s: int) -> char {
    if s < 0 {
        '-'
    } else {
        '+'
    }
}

/// How an offset of `s` seconds is written: "UTC" for none; "UTC+5" for
/// whole hours; "UTC-05:30" for whole minutes; "UTC+00:00:32" otherwise.
pub open spec fn offset_text(s: int) -> Seq<char> {
    let a = if s < 0 {
        -s
    } else {
        s
    };
    if s == 0 {
        "UTC"@
    } else if a % 3600 == 0 {
        "UTC"@ + seq![sign_char(s)] + decimal((a / 3600) as nat)
    } else if a % 60 == 0 {
        "UTC"@ + seq![sign_char(s)] + two_digits((a / 3600) as nat) + seq![':'] + two_digits(
            ((a % 3600) / 60) as nat,
        )
    } else {
        "UTC"@ + seq![sign_char(s)] + two_digits((a / 3600) as nat) + seq![':'] + two_digits(
            ((a % 3600) / 60) as nat,
        ) + seq![':'] + two_digits((a % 60) as nat)
    }
}

impl UtcOffset {
    /// An offset of `seconds` seconds ahead of UTC.
    pub fn from_seconds(seconds: i32) -> (r: UtcOffset)
        ensures
            r.offset_seconds == seconds,
    {
        UtcOffset { offset_seconds: seconds }
    }

    /// An offset of `hours` whole hours ahead of UTC.
    pub fn from_hours(hours: i32) -> (r: UtcOffset)
        requires
            i32::MIN <= hours * 3600 <= i32::MAX,
        ensures
            r.offset_seconds == hours * 3600,
    {
        UtcOffset { offset_seconds: hours * 3600 }
    }

    /// The number of seconds the zone is ahead of UTC.
    pub fn seconds_ahead(self) -> (r: i32)
        ensures
            r == self.offset_seconds,
    {
        self.offset_seconds
    }

    /// The offset written out, as "UTC+1" or "UTC-00:00:32".
    pub fn to_string(&self) -> (r: String)
        ensures
            r@ == offset_text(self.offset_seconds as int),
    {
        proof {
            reveal_strlit("UTC");
            reveal_strlit("+");
            reveal_strlit("-");
            reveal_strlit(":");
        }
        let s = self.offset_seconds;
        let a: u64 = if s < 0 {
            (-(s as i64)) as u64
        } else {
            s as u64
        };
        let mut text = String::from_str("UTC");
        if s == 0 {
            return text;
        }
        if s < 0 {
            text.append("-");
        } else {
            text.append("+");
        }
        if a % 3600 == 0 {
            push_decimal(&mut text, a / 3600);
        } else {
            push_two_digits(&mut text, a / 3600);
            text.append(":");
            push_two_digits(&mut text, (a % 3600) / 60);
            if a % 60 != 0 {
                text.append(":");
                push_two_digits(&mut text, a % 60);
            }
        }
        assert(text@ =~= offset_text(s as int));
        text
    }
}

impl TimeZone for Utc {
    type Err = core::convert::Infallible;

    open spec fn gives_offset(&self, at: NaiveDateTime, r: UtcOffset) -> bool {
        r.offset_seconds == 0
    }

    open spec fn gives_local_offset(
        &self,
        local: NaiveDateTime,
        r: Result<UtcOffset, core::convert::Infallible>,
    ) -> bool {
        r == Ok::<UtcOffset, core::convert::Infallible>(UtcOffset { offset_seconds: 0 })
    }

    fn utc_offset(&self, date_time: DateTime<Utc>) -> (r: UtcOffset)
        ensures
            r.offset_seconds == 0,
    {
        UtcOffset { offset_seconds: 0 }
    }

    fn offset_from_local_naive(&self, date_time: NaiveDateTime) -> (r: Result<UtcOffset, core::convert::Infallible>)
        ensures
            r == Ok::<UtcOffset, core::convert::Infallible>(UtcOffset { offset_seconds: 0 }),
    {
        Ok(UtcOffset { offset_seconds: 0 })
    }
}

impl TimeZone for UtcOffset {
    type Err = core::convert::Infallible;

    open spec fn gives_offset(&self, at: NaiveDateTime, r: UtcOffset) -> bool {
        r == *self
    }

    open spec fn gives_local_offset(
        &self,
        local: NaiveDateTime,
        r: Result<UtcOffset, core::convert::Infallible>,
    ) -> bool {
        r == Ok::<UtcOffset, core::convert::Infallible>(*self)
    }

    fn utc_offset(&self, date_time: DateTime<Utc>) -> (r: UtcOffset)
        ensures
            r == *self,
    {
        *self
    }

    fn offset_from_local_naive(&self, date_time: NaiveDateTime) -> (r: Result<UtcOffset, core::convert::Infallible>)
        ensures
            r == Ok::<UtcOffset, core::convert::Infallible>(*self),
    {
        Ok(*self)
    }
}

} // verus!
