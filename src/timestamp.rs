use vstd::prelude::*;

use core::cmp::Ordering;

use crate::arith::{compare_lex, floor_div_mod, lex_cmp};

verus! {

/// Whether `x` can be held in an `i64`.
pub open spec fn fits_i64(x: int) -> bool {
    i64::MIN <= x <= i64::MAX
}

/// `x` taken modulo 2^64 into the range of `i64`, as two's complement
/// arithmetic wraps it.
pub open spec fn wrap_i64(x: int) -> int {
    (x - i64::MIN) % 0x1_0000_0000_0000_0000 + i64::MIN
}

/// An instant as whole seconds since 1970-01-01T00:00:00 (negative before
/// it) and the nanoseconds past that second.
#[derive(Copy, Clone, PartialEq, Eq, Structural, Hash, Debug, Ord)]
pub struct Timestamp {
    pub seconds: i64,
    pub nanoseconds: u32,
}

/// The timestamp `total` seconds after the epoch, wrapped into the range of
/// `i64`, and whether it wrapped.
fn wrapped(total: i128, nanoseconds: u32) -> (r: (Timestamp, bool))
    requires
        -0x1_0000_0000_0000_0000_0000_0000 <= total <= 0x1_0000_0000_0000_0000_0000_0000,
    ensures
        r.0.seconds == wrap_i64(total as int),
        r.0.nanoseconds == nanoseconds,
        r.1 == !fits_i64(total as int),
{
    let offset: i128 = total - i64::MIN as i128;
    let (_, rem) = floor_div_mod(offset, 0x1_0000_0000_0000_0000);
    let fits = i64::MIN as i128 <= total && total <= i64::MAX as i128;
    proof {
        if fits {
            vstd::arithmetic::div_mod::lemma_small_mod(
                offset as nat,
                0x1_0000_0000_0000_0000nat,
            );
        }
    }
    (Timestamp { seconds: (rem + i64::MIN as i128) as i64, nanoseconds }, !fits)
}

impl Timestamp {
    /// The fields in the order in which timestamps compare.
    pub open spec fn key(self) -> Seq<i64> {
        seq![self.seconds, self.nanoseconds as i64]
    }

    /// The instant `seconds` seconds and `nanoseconds` nanoseconds after the
    /// epoch, or before it where `before_epoch` holds, its seconds floored
    /// so that the nanoseconds are not negative; `None` where the seconds do
    /// not fit in an `i64`.
    pub fn from_duration(before_epoch: bool, seconds: u64, nanoseconds: u32) -> (r: Option<Timestamp>)
        ensures
            ({
                let magnitude = seconds * 1_000_000_000 + nanoseconds;
                let total = if before_epoch {
                    -magnitude
                } else {
                    magnitude
                };
                &&& fits_i64(total / 1_000_000_000) ==> r == Some(
                    Timestamp {
                        seconds: (total / 1_000_000_000) as i64,
                        nanoseconds: (total % 1_000_000_000) as u32,
                    },
                )
                &&& !fits_i64(total / 1_000_000_000) ==> r is None
            }),
    {
        let magnitude: i128 = seconds as i128 * 1_000_000_000 + nanoseconds as i128;
        let total: i128 = if before_epoch {
            -magnitude
        } else {
            magnitude
        };
        let (whole, fraction) = floor_div_mod(total, 1_000_000_000);
        if whole < i64::MIN as i128 || whole > i64::MAX as i128 {
            None
        } else {
            Some(Timestamp { seconds: whole as i64, nanoseconds: fraction as u32 })
        }
    }

    pub fn new(seconds: i64, nanoseconds: u32) -> (r: Timestamp)
        ensures
            r == (Timestamp { seconds, nanoseconds }),
    {
        Timestamp { seconds, nanoseconds }
    }

    /// Whole seconds since the epoch.
    pub fn total_seconds(self) -> (r: i64)
        ensures
            r == self.seconds,
    {
        self.seconds
    }

    /// Nanoseconds past the whole second.
    pub fn nanosecond(self) -> (r: u32)
        ensures
            r == self.nanoseconds,
    {
        self.nanoseconds
    }

    /// Moves the instant by `days` days of 86 400 seconds; the seconds wrap
    /// as `i64` arithmetic does, and the flag says whether they wrapped.
    pub fn add_days_overflowing(self, days: i64) -> (r: (Timestamp, bool))
        ensures
            r.0.seconds == wrap_i64(self.seconds + days * 86_400),
            r.0.nanoseconds == self.nanoseconds,
            r.1 == !fits_i64(self.seconds + days * 86_400),
    {
        wrapped(self.seconds as i128 + days as i128 * 86_400, self.nanoseconds)
    }

    /// Moves the instant by `hours` hours; as `add_days_overflowing`.
    pub fn add_hours_overflowing(self, hours: i64) -> (r: (Timestamp, bool))
        ensures
            r.0.seconds == wrap_i64(self.seconds + hours * 3_600),
            r.0.nanoseconds == self.nanoseconds,
            r.1 == !fits_i64(self.seconds + hours * 3_600),
    {
        wrapped(self.seconds as i128 + hours as i128 * 3_600, self.nanoseconds)
    }

    /// Moves the instant by `minutes` minutes; as `add_days_overflowing`.
    pub fn add_minutes_overflowing(self, minutes: i64) -> (r: (Timestamp, bool))
        ensures
            r.0.seconds == wrap_i64(self.seconds + minutes * 60),
            r.0.nanoseconds == self.nanoseconds,
            r.1 == !fits_i64(self.seconds + minutes * 60),
    {
        wrapped(self.seconds as i128 + minutes as i128 * 60, self.nanoseconds)
    }

    /// Moves the instant by `seconds` seconds; as `add_days_overflowing`.
    pub fn add_seconds_overflowing(self, seconds: i64) -> (r: (Timestamp, bool))
        ensures
            r.0.seconds == wrap_i64(self.seconds + seconds),
            r.0.nanoseconds == self.nanoseconds,
            r.1 == !fits_i64(self.seconds + seconds),
    {
        wrapped(self.seconds as i128 + seconds as i128, self.nanoseconds)
    }

    /// Moves the instant by `nanoseconds` nanoseconds, carrying into the
    /// seconds; as `add_days_overflowing` for the seconds.
    pub fn add_nanoseconds_overflowing(self, nanoseconds: i64) -> (r: (Timestamp, bool))
        ensures
            ({
                let total = self.seconds * 1_000_000_000 + self.nanoseconds + nanoseconds;
                &&& r.0.seconds == wrap_i64(total / 1_000_000_000)
                &&& r.0.nanoseconds == total % 1_000_000_000
                &&& r.1 == !fits_i64(total / 1_000_000_000)
            }),
    {
        let total: i128 = self.seconds as i128 * 1_000_000_000 + self.nanoseconds as i128
            + nanoseconds as i128;
        let (seconds, nanosecond) = floor_div_mod(total, 1_000_000_000);
        proof {
            assert(-0x1_0000_0000_0000_0000_0000_0000 <= seconds
                <= 0x1_0000_0000_0000_0000_0000_0000) by (nonlinear_arith)
                requires
                    seconds == (total as int) / 1_000_000_000int,
                    -0x1_0000_0000_0000_0000_0000_0000 <= total
                        <= 0x1_0000_0000_0000_0000_0000_0000,
            ;
        }
        wrapped(seconds, nanosecond as u32)
    }
}

impl PartialOrd for Timestamp {
    fn partial_cmp(&self, other: &Timestamp) -> (r: Option<Ordering>) {
        let a = vec![self.seconds, self.nanoseconds as i64];
        let b = vec![other.seconds, other.nanoseconds as i64];
        assert(a@ == self.key());
        assert(b@ == other.key());
        Some(compare_lex(&a, &b))
    }
}

impl vstd::std_specs::cmp::PartialOrdSpecImpl for Timestamp {
    open spec fn obeys_partial_cmp_spec() -> bool {
        true
    }

    open spec fn partial_cmp_spec(&self, other: &Timestamp) -> Option<Ordering> {
        Some(lex_cmp(self.key(), other.key()))
    }
}

} // verus!
