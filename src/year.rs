use vstd::prelude::*;

verus! {

/// Whether `y` is a leap year of the proleptic Gregorian calendar.
pub open spec fn is_leap(y: int) -> bool {
    y % 4 == 0 && (y % 100 != 0 || y % 400 == 0)
}

/// Whether `x` can be held in an `i16`.
pub open spec fn fits_i16(x: int) -> bool {
    i16::MIN <= x <= i16::MAX
}

/// `x` brought back into the range of `i16` by adding or removing 2^16 once;
/// exact for every sum or difference of two `i16` values.
pub open spec fn wrap_i16(x: int) -> int {
    if x > i16::MAX {
        x - 0x1_0000
    } else if x < i16::MIN {
        x + 0x1_0000
    } else {
        x
    }
}

/// `x` clamped to the range of `i16`.
pub open spec fn saturate_i16(x: int) -> int {
    if x > i16::MAX {
        i16::MAX as int
    } else if x < i16::MIN {
        i16::MIN as int
    } else {
        x
    }
}

/// A year of the proleptic Gregorian calendar, stored as an `i16`.
#[derive(Copy, Clone, PartialEq, Eq, Structural, PartialOrd, Ord, Hash, Debug)]
pub struct Year(pub i16);

impl Year {
    /// The year as a mathematical integer.
    pub open spec fn value(self) -> int {
        self.0 as int
    }

    pub fn from_i16(i: i16) -> (r: Year)
        ensures
            r.value() == i,
    {
        Year(i)
    }

    pub fn as_i16(self) -> (r: i16)
        ensures
            r == self.value(),
    {
        self.0
    }

    /// `self + rhs`, or `None` where the sum leaves the range of `i16`.
    pub fn checked_add(self, rhs: i16) -> (r: Option<Year>)
        ensures
            fits_i16(self.value() + rhs) ==> r == Some(Year((self.value() + rhs) as i16)),
            !fits_i16(self.value() + rhs) ==> r is None,
    {
        let sum: i32 = self.0 as i32 + rhs as i32;
        if sum < -32768 || sum > 32767 {
            None
        } else {
            Some(Year(sum as i16))
        }
    }

    /// `self + rhs`, wrapped into the range of `i16`, and whether it wrapped.
    pub fn overflowing_add(self, rhs: i16) -> (r: (Year, bool))
        ensures
            r.0.value() == wrap_i16(self.value() + rhs),
            r.1 == !fits_i16(self.value() + rhs),
    {
        let sum: i32 = self.0 as i32 + rhs as i32;
        if sum > 32767 {
            (Year((sum - 0x1_0000) as i16), true)
        } else if sum < -32768 {
            (Year((sum + 0x1_0000) as i16), true)
        } else {
            (Year(sum as i16), false)
        }
    }

    /// `self + rhs`, held at the bounds of `i16`.
    pub fn saturating_add(self, rhs: i16) -> (r: Year)
        ensures
            r.value() == saturate_i16(self.value() + rhs),
    {
        let sum: i32 = self.0 as i32 + rhs as i32;
        if sum > 32767 {
            Year(32767)
        } else if sum < -32768 {
            Year(-32768)
        } else {
            Year(sum as i16)
        }
    }

    /// `self + rhs`, wrapped into the range of `i16`.
    pub fn wrapping_add(self, rhs: i16) -> (r: Year)
        ensures
            r.value() == wrap_i16(self.value() + rhs),
    {
        self.overflowing_add(rhs).0
    }

    /// `self - rhs`, or `None` where the difference leaves the range of `i16`.
    pub fn checked_sub(self, rhs: i16) -> (r: Option<Year>)
        ensures
            fits_i16(self.value() - rhs) ==> r == Some(Year((self.value() - rhs) as i16)),
            !fits_i16(self.value() - rhs) ==> r is None,
    {
        let diff: i32 = self.0 as i32 - rhs as i32;
        if diff < -32768 || diff > 32767 {
            None
        } else {
            Some(Year(diff as i16))
        }
    }

    /// `self - rhs`, wrapped into the range of `i16`, and whether it wrapped.
    pub fn overflowing_sub(self, rhs: i16) -> (r: (Year, bool))
        ensures
            r.0.value() == wrap_i16(self.value() - rhs),
            r.1 == !fits_i16(self.value() - rhs),
    {
        let diff: i32 = self.0 as i32 - rhs as i32;
        if diff > 32767 {
            (Year((diff - 0x1_0000) as i16), true)
        } else if diff < -32768 {
            (Year((diff + 0x1_0000) as i16), true)
        } else {
            (Year(diff as i16), false)
        }
    }

    /// `self - rhs`, held at the bounds of `i16`.
    pub fn saturating_sub(self, rhs: i16) -> (r: Year)
        ensures
            r.value() == saturate_i16(self.value() - rhs),
    {
        let diff: i32 = self.0 as i32 - rhs as i32;
        if diff > 32767 {
            Year(32767)
        } else if diff < -32768 {
            Year(-32768)
        } else {
            Year(diff as i16)
        }
    }

    /// `self - rhs`, wrapped into the range of `i16`.
    pub fn wrapping_sub(self, rhs: i16) -> (r: Year)
        ensures
            r.value() == wrap_i16(self.value() - rhs),
    {
        self.overflowing_sub(rhs).0
    }

    /// Whether the year is a leap year: divisible by 4, and either not by 100
    /// or by 400.
    pub fn is_leap_year(self) -> (r: bool)
        ensures
            r == is_leap(self.value()),
    {
        // A whole number of 400-year cycles moves every year to a
        // non-negative one without changing which of them are leap years.
        let shifted: u32 = (self.0 as i32 + 32800) as u32;
        proof {
            let y = self.value();
            assert(y % 4 == (y + 32800) % 4);
            assert(y % 100 == (y + 32800) % 100);
            assert(y % 400 == (y + 32800) % 400);
        }
        shifted % 4 == 0 && (shifted % 100 != 0 || shifted % 400 == 0)
    }
}

impl From<i16> for Year {
    fn from(i: i16) -> (r: Year) {
        Year(i)
    }
}

impl vstd::std_specs::convert::FromSpecImpl<i16> for Year {
    open spec fn obeys_from_spec() -> bool {
        true
    }

    open spec fn from_spec(i: i16) -> Year {
        Year(i)
    }
}

impl From<Year> for i16 {
    fn from(year: Year) -> (r: i16) {
        year.0
    }
}

impl vstd::std_specs::convert::FromSpecImpl<Year> for i16 {
    open spec fn obeys_from_spec() -> bool {
        true
    }

    open spec fn from_spec(year: Year) -> i16 {
        year.0
    }
}

} // verus!
