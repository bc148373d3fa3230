use vstd::prelude::*;

use crate::text::{parse_u8, str_eq, u8_of_text};

verus! {

/// A month of the year.
#[derive(Copy, Clone, PartialEq, Eq, Structural, Hash, Debug, PartialOrd, Ord)]
pub enum Month {
    January,
    February,
    March,
    April,
    May,
    June,
    July,
    August,
    September,
    October,
    November,
    December,
}

/// Failure to read a month from text.
#[derive(Copy, Clone, PartialEq, Eq, Structural, Hash, Debug)]
pub struct ParseMonthError;

impl Month {
    /// The number of the month, January being 1.
    pub open spec fn num(self) -> int {
        match self {
            Month::January => 1,
            Month::February => 2,
            Month::March => 3,
            Month::April => 4,
            Month::May => 5,
            Month::June => 6,
            Month::July => 7,
            Month::August => 8,
            Month::September => 9,
            Month::October => 10,
            Month::November => 11,
            Month::December => 12,
        }
    }

    /// The month whose number is `n`, if there is one.
    pub open spec fn of_num(n: int) -> Option<Month> {
        if n == 1 {
            Some(Month::January)
        } else if n == 2 {
            Some(Month::February)
        } else if n == 3 {
            Some(Month::March)
        } else if n == 4 {
            Some(Month::April)
        } else if n == 5 {
            Some(Month::May)
        } else if n == 6 {
            Some(Month::June)
        } else if n == 7 {
            Some(Month::July)
        } else if n == 8 {
            Some(Month::August)
        } else if n == 9 {
            Some(Month::September)
        } else if n == 10 {
            Some(Month::October)
        } else if n == 11 {
            Some(Month::November)
        } else if n == 12 {
            Some(Month::December)
        } else {
            None
        }
    }

    /// The number of days in the month, in a leap year or a common one.
    pub open spec fn days_in(self, leap: bool) -> int {
        match self {
            Month::February => if leap { 29 } else { 28 },
            Month::April | Month::June | Month::September | Month::November => 30,
            _ => 31,
        }
    }

    /// The number of days of the year up to the end of the month.
    pub open spec fn ordinal_end(self, leap: bool) -> int {
        match self {
            Month::January => 31,
            Month::February => if leap { 60 } else { 59 },
            Month::March => if leap { 91 } else { 90 },
            Month::April => if leap { 121 } else { 120 },
            Month::May => if leap { 152 } else { 151 },
            Month::June => if leap { 182 } else { 181 },
            Month::July => if leap { 213 } else { 212 },
            Month::August => if leap { 244 } else { 243 },
            Month::September => if leap { 274 } else { 273 },
            Month::October => if leap { 305 } else { 304 },
            Month::November => if leap { 335 } else { 334 },
            Month::December => if leap { 366 } else { 365 },
        }
    }

    /// The number of days of the year before the month starts.
    pub open spec fn ordinal_start(self, leap: bool) -> int {
        self.ordinal_end(leap) - self.days_in(leap)
    }

    /// The month's full English name.
    pub open spec fn name_of(self) -> Seq<char> {
        match self {
            Month::January => "January"@,
            Month::February => "February"@,
            Month::March => "March"@,
            Month::April => "April"@,
            Month::May => "May"@,
            Month::June => "June"@,
            Month::July => "July"@,
            Month::August => "August"@,
            Month::September => "September"@,
            Month::October => "October"@,
            Month::November => "November"@,
            Month::December => "December"@,
        }
    }

    /// The month's three-letter abbreviation.
    pub open spec fn abbreviation_of(self) -> Seq<char> {
        match self {
            Month::January => "Jan"@,
            Month::February => "Feb"@,
            Month::March => "Mar"@,
            Month::April => "Apr"@,
            Month::May => "May"@,
            Month::June => "Jun"@,
            Month::July => "Jul"@,
            Month::August => "Aug"@,
            Month::September => "Sep"@,
            Month::October => "Oct"@,
            Month::November => "Nov"@,
            Month::December => "Dec"@,
        }
    }

    /// The month after this one, January following December.
    pub open spec fn succ(self) -> Month {
        Month::of_num(self.num() % 12 + 1)->Some_0
    }

    /// The month before this one, December preceding January.
    pub open spec fn pred(self) -> Month {
        Month::of_num((self.num() + 10) % 12 + 1)->Some_0
    }

    /// The month whose number is `num`, or `None` where `num` is 0 or over 12.
    pub fn from_u8(num: u8) -> (r: Option<Month>)
        ensures
            r == Month::of_num(num as int),
    {
        match num {
            1 => Some(Month::January),
            2 => Some(Month::February),
            3 => Some(Month::March),
            4 => Some(Month::April),
            5 => Some(Month::May),
            6 => Some(Month::June),
            7 => Some(Month::July),
            8 => Some(Month::August),
            9 => Some(Month::September),
            10 => Some(Month::October),
            11 => Some(Month::November),
            12 => Some(Month::December),
            _ => None,
        }
    }

    /// The month with the given three-letter abbreviation, as "Jan".
    pub fn from_abbreviation(abbreviation: &str) -> (r: Option<Month>)
        ensures
            r matches Some(m) ==> m.abbreviation_of() == abbreviation@,
            r is None ==> forall|m: Month| m.abbreviation_of() != abbreviation@,
    {
        if str_eq(abbreviation, "Jan") {
            return Some(Month::January);
        }
        if str_eq(abbreviation, "Feb") {
            return Some(Month::February);
        }
        if str_eq(abbreviation, "Mar") {
            return Some(Month::March);
        }
        if str_eq(abbreviation, "Apr") {
            return Some(Month::April);
        }
        if str_eq(abbreviation, "May") {
            return Some(Month::May);
        }
        if str_eq(abbreviation, "Jun") {
            return Some(Month::June);
        }
        if str_eq(abbreviation, "Jul") {
            return Some(Month::July);
        }
        if str_eq(abbreviation, "Aug") {
            return Some(Month::August);
        }
        if str_eq(abbreviation, "Sep") {
            return Some(Month::September);
        }
        if str_eq(abbreviation, "Oct") {
            return Some(Month::October);
        }
        if str_eq(abbreviation, "Nov") {
            return Some(Month::November);
        }
        if str_eq(abbreviation, "Dec") {
            return Some(Month::December);
        }
        None
    }

    /// The month with the given full name, as "January".
    pub fn from_name(name: &str) -> (r: Option<Month>)
        ensures
            r matches Some(m) ==> m.name_of() == name@,
            r is None ==> forall|m: Month| m.name_of() != name@,
    {
        if str_eq(name, "January") {
            return Some(Month::January);
        }
        if str_eq(name, "February") {
            return Some(Month::February);
        }
        if str_eq(name, "March") {
            return Some(Month::March);
        }
        if str_eq(name, "April") {
            return Some(Month::April);
        }
        if str_eq(name, "May") {
            return Some(Month::May);
        }
        if str_eq(name, "June") {
            return Some(Month::June);
        }
        if str_eq(name, "July") {
            return Some(Month::July);
        }
        if str_eq(name, "August") {
            return Some(Month::August);
        }
        if str_eq(name, "September") {
            return Some(Month::September);
        }
        if str_eq(name, "October") {
            return Some(Month::October);
        }
        if str_eq(name, "November") {
            return Some(Month::November);
        }
        if str_eq(name, "December") {
            return Some(Month::December);
        }
        None
    }

    pub fn number(self) -> (r: u8)
        ensures
            r == self.num(),
    {
        match self {
            Month::January => 1,
            Month::February => 2,
            Month::March => 3,
            Month::April => 4,
            Month::May => 5,
            Month::June => 6,
            Month::July => 7,
            Month::August => 8,
            Month::September => 9,
            Month::October => 10,
            Month::November => 11,
            Month::December => 12,
        }
    }

    pub fn name(self) -> (r: &'static str)
        ensures
            r@ == self.name_of(),
    {
        match self {
            Month::January => "January",
            Month::February => "February",
            Month::March => "March",
            Month::April => "April",
            Month::May => "May",
            Month::June => "June",
            Month::July => "July",
            Month::August => "August",
            Month::September => "September",
            Month::October => "October",
            Month::November => "November",
            Month::December => "December",
        }
    }

    /// The abbreviated name of the month; always three letters.
    pub fn abbreviation(self) -> (r: &'static str)
        ensures
            r@ == self.abbreviation_of(),
    {
        match self {
            Month::January => "Jan",
            Month::February => "Feb",
            Month::March => "Mar",
            Month::April => "Apr",
            Month::May => "May",
            Month::June => "Jun",
            Month::July => "Jul",
            Month::August => "Aug",
            Month::September => "Sep",
            Month::October => "Oct",
            Month::November => "Nov",
            Month::December => "Dec",
        }
    }

    /// The month holding the zero-based day `ordinal` of a common year;
    /// December for every ordinal past the year's end.
    pub fn from_ordinal_common(ordinal: u16) -> (r: Month)
        ensures
            r.ordinal_start(false) <= ordinal,
            ordinal < r.ordinal_end(false) || r == Month::December,
    {
        if ordinal < 31 {
            Month::January
        } else if ordinal < 59 {
            Month::February
        } else if ordinal < 90 {
            Month::March
        } else if ordinal < 120 {
            Month::April
        } else if ordinal < 151 {
            Month::May
        } else if ordinal < 181 {
            Month::June
        } else if ordinal < 212 {
            Month::July
        } else if ordinal < 243 {
            Month::August
        } else if ordinal < 273 {
            Month::September
        } else if ordinal < 304 {
            Month::October
        } else if ordinal < 334 {
            Month::November
        } else {
            Month::December
        }
    }

    /// The month holding the zero-based day `ordinal` of a leap year;
    /// December for every ordinal past the year's end.
    pub fn from_ordinal_leap(ordinal: u16) -> (r: Month)
        ensures
            r.ordinal_start(true) <= ordinal,
            ordinal < r.ordinal_end(true) || r == Month::December,
    {
        if ordinal < 31 {
            Month::January
        } else if ordinal < 60 {
            Month::February
        } else if ordinal < 91 {
            Month::March
        } else if ordinal < 121 {
            Month::April
        } else if ordinal < 152 {
            Month::May
        } else if ordinal < 182 {
            Month::June
        } else if ordinal < 213 {
            Month::July
        } else if ordinal < 244 {
            Month::August
        } else if ordinal < 274 {
            Month::September
        } else if ordinal < 305 {
            Month::October
        } else if ordinal < 335 {
            Month::November
        } else {
            Month::December
        }
    }

    /// The month holding the zero-based day `ordinal` of a year.
    pub fn from_ordinal(ordinal: u16, leap_year: bool) -> (r: Month)
        ensures
            r.ordinal_start(leap_year) <= ordinal,
            ordinal < r.ordinal_end(leap_year) || r == Month::December,
    {
        if leap_year {
            Month::from_ordinal_leap(ordinal)
        } else {
            Month::from_ordinal_common(ordinal)
        }
    }

    /// The next month, January following December.
    pub fn next(self) -> (r: Month)
        ensures
            r == self.succ(),
    {
        match self {
            Month::January => Month::February,
            Month::February => Month::March,
            Month::March => Month::April,
            Month::April => Month::May,
            Month::May => Month::June,
            Month::June => Month::July,
            Month::July => Month::August,
            Month::August => Month::September,
            Month::September => Month::October,
            Month::October => Month::November,
            Month::November => Month::December,
            Month::December => Month::January,
        }
    }

    /// The previous month, December preceding January.
    pub fn previous(self) -> (r: Month)
        ensures
            r == self.pred(),
    {
        match self {
            Month::January => Month::December,
            Month::February => Month::January,
            Month::March => Month::February,
            Month::April => Month::March,
            Month::May => Month::April,
            Month::June => Month::May,
            Month::July => Month::June,
            Month::August => Month::July,
            Month::September => Month::August,
            Month::October => Month::September,
            Month::November => Month::October,
            Month::December => Month::November,
        }
    }

    /// The number of days of a common year up to the end of the month.
    pub fn last_day_ordinal_common(self) -> (r: u16)
        ensures
            r == self.ordinal_end(false),
    {
        match self {
            Month::January => 31,
            Month::February => 59,
            Month::March => 90,
            Month::April => 120,
            Month::May => 151,
            Month::June => 181,
            Month::July => 212,
            Month::August => 243,
            Month::September => 273,
            Month::October => 304,
            Month::November => 334,
            Month::December => 365,
        }
    }

    /// The number of days of a leap year up to the end of the month.
    pub fn last_day_ordinal_leap(self) -> (r: u16)
        ensures
            r == self.ordinal_end(true),
    {
        match self {
            Month::January => 31,
            Month::February => 60,
            Month::March => 91,
            Month::April => 121,
            Month::May => 152,
            Month::June => 182,
            Month::July => 213,
            Month::August => 244,
            Month::September => 274,
            Month::October => 305,
            Month::November => 335,
            Month::December => 366,
        }
    }

    /// The number of days of the year up to the end of the month.
    pub fn last_day_ordinal(self, leap_year: bool) -> (r: u16)
        ensures
            r == self.ordinal_end(leap_year),
    {
        if leap_year {
            self.last_day_ordinal_leap()
        } else {
            self.last_day_ordinal_common()
        }
    }

    /// The number of days in the month.
    pub fn days(self, leap_year: bool) -> (r: u8)
        ensures
            r == self.days_in(leap_year),
    {
        match self {
            Month::February => if leap_year { 29 } else { 28 },
            Month::April | Month::June | Month::September | Month::November => 30,
            _ => 31,
        }
    }

    /// The month `months` after this one (before it, for a negative count),
    /// with the number of years that the move crosses.
    pub fn add_overflowing(self, months: i8) -> (r: (Month, i16))
        ensures
            r.0.num() == (self.num() - 1 + months) % 12 + 1,
            r.1 == (self.num() - 1 + months) / 12,
    {
        let zero_based: i16 = self.number() as i16 - 1 + months as i16;
        // 132 months are a whole number of years and make the sum non-negative.
        let shifted: u16 = (zero_based + 132) as u16;
        let month_index: u16 = shifted % 12;
        let years: i16 = (shifted / 12) as i16 - 11;
        let month = match Month::from_u8((month_index + 1) as u8) {
            Some(m) => m,
            None => Month::January,
        };
        proof {
            let z = self.num() - 1 + months;
            assert(z + 132 == (z % 12) + 12 * (z / 12) + 132);
            assert((z + 132) % 12 == z % 12);
            assert((z + 132) / 12 == z / 12 + 11);
        }
        (month, years)
    }
}

impl core::str::FromStr for Month {
    type Err = ParseMonthError;

    /// Reads a month from its number, its abbreviation or its name, tried
    /// in that order.
    fn from_str(s: &str) -> (r: Result<Month, ParseMonthError>)
        ensures
            u8_of_text(s@) matches Some(n) ==> r == (match Month::of_num(n as int) {
                Some(m) => Ok::<Month, ParseMonthError>(m),
                None => Err::<Month, ParseMonthError>(ParseMonthError),
            }),
            u8_of_text(s@) is None ==> {
                &&& r matches Ok(m) ==> (m.abbreviation_of() == s@ || m.name_of() == s@)
                &&& r is Err ==> forall|m: Month|
                    m.abbreviation_of() != s@ && m.name_of() != s@
            },
    {
        if let Some(num) = parse_u8(s) {
            match Month::from_u8(num) {
                Some(month) => Ok(month),
                None => Err(ParseMonthError),
            }
        } else if let Some(month) = Month::from_abbreviation(s) {
            Ok(month)
        } else if let Some(month) = Month::from_name(s) {
            Ok(month)
        } else {
            Err(ParseMonthError)
        }
    }
}

impl From<Month> for u8 {
    fn from(month: Month) -> (r: u8) {
        month.number()
    }
}

impl vstd::std_specs::convert::FromSpecImpl<Month> for u8 {
    open spec fn obeys_from_spec() -> bool {
        true
    }

    open spec fn from_spec(month: Month) -> u8 {
        month.num() as u8
    }
}

/// The table of a leap year runs one day ahead of that of a common year
/// from February on: January ends on day 31 in both, and every later month
/// one day later in a leap year; a whole year is 365 or 366 days.
pub proof fn lemma_ordinal_tables(m: Month)
    ensures
        m.ordinal_end(true) == m.ordinal_end(false) + if m == Month::January {
            0int
        } else {
            1int
        },
        Month::December.ordinal_end(false) == 365,
        Month::December.ordinal_end(true) == 366,
{
}

} // verus!
