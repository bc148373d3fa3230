use vstd::prelude::*;

use crate::text::str_eq;

verus! {

/// A day of the week.
#[derive(Copy, Clone, PartialEq, Eq, Structural, Hash, Debug)]
pub enum Weekday {
    Monday,
    Tuesday,
    Wednesday,
    Thursday,
    Friday,
    Saturday,
    Sunday,
}

/// Failure to read a weekday from text.
#[derive(Copy, Clone, PartialEq, Eq, Structural, Hash, Debug)]
pub struct ParseWeekdayError;

impl Weekday {
    /// The number of days from Monday to this day, Monday being 0.
    pub open spec fn index(self) -> int {
        match self {
            Weekday::Monday => 0,
            Weekday::Tuesday => 1,
            Weekday::Wednesday => 2,
            Weekday::Thursday => 3,
            Weekday::Friday => 4,
            Weekday::Saturday => 5,
            Weekday::Sunday => 6,
        }
    }

    /// The weekday `i` days after Monday, for `0 <= i < 7`.
    pub open spec fn of_index(i: int) -> Weekday {
        if i == 0 {
            Weekday::Monday
        } else if i == 1 {
            Weekday::Tuesday
        } else if i == 2 {
            Weekday::Wednesday
        } else if i == 3 {
            Weekday::Thursday
        } else if i == 4 {
            Weekday::Friday
        } else if i == 5 {
            Weekday::Saturday
        } else {
            Weekday::Sunday
        }
    }

    /// The weekday's English name.
    pub open spec fn name_of(self) -> Seq<char> {
        match self {
            Weekday::Monday => "Monday"@,
            Weekday::Tuesday => "Tuesday"@,
            Weekday::Wednesday => "Wednesday"@,
            Weekday::Thursday => "Thursday"@,
            Weekday::Friday => "Friday"@,
            Weekday::Saturday => "Saturday"@,
            Weekday::Sunday => "Sunday"@,
        }
    }

    /// The weekday with the given name, as "Monday"; names are matched
    /// exactly, with their case.
    pub fn from_name(name: &str) -> (r: Option<Weekday>)
        ensures
            r matches Some(d) ==> d.name_of() == name@,
            r is None ==> forall|d: Weekday| d.name_of() != name@,
    {
        if str_eq(name, "Monday") {
            return Some(Weekday::Monday);
        }
        if str_eq(name, "Tuesday") {
            return Some(Weekday::Tuesday);
        }
        if str_eq(name, "Wednesday") {
            return Some(Weekday::Wednesday);
        }
        if str_eq(name, "Thursday") {
            return Some(Weekday::Thursday);
        }
        if str_eq(name, "Friday") {
            return Some(Weekday::Friday);
        }
        if str_eq(name, "Saturday") {
            return Some(Weekday::Saturday);
        }
        if str_eq(name, "Sunday") {
            return Some(Weekday::Sunday);
        }
        None
    }

    /// The next weekday, Monday following Sunday.
    pub fn next(self) -> (r: Weekday)
        ensures
            r == Weekday::of_index((self.index() + 1) % 7),
    {
        match self {
            Weekday::Monday => Weekday::Tuesday,
            Weekday::Tuesday => Weekday::Wednesday,
            Weekday::Wednesday => Weekday::Thursday,
            Weekday::Thursday => Weekday::Friday,
            Weekday::Friday => Weekday::Saturday,
            Weekday::Saturday => Weekday::Sunday,
            Weekday::Sunday => Weekday::Monday,
        }
    }

    /// The previous weekday, Sunday preceding Monday.
    pub fn previous(self) -> (r: Weekday)
        ensures
            r == Weekday::of_index((self.index() + 6) % 7),
    {
        match self {
            Weekday::Monday => Weekday::Sunday,
            Weekday::Tuesday => Weekday::Monday,
            Weekday::Wednesday => Weekday::Tuesday,
            Weekday::Thursday => Weekday::Wednesday,
            Weekday::Friday => Weekday::Thursday,
            Weekday::Saturday => Weekday::Friday,
            Weekday::Sunday => Weekday::Saturday,
        }
    }

    /// The zero-based number of the day counted from Monday.
    pub fn number_days_from_monday(self) -> (r: u8)
        ensures
            r == self.index(),
    {
        match self {
            Weekday::Monday => 0,
            Weekday::Tuesday => 1,
            Weekday::Wednesday => 2,
            Weekday::Thursday => 3,
            Weekday::Friday => 4,
            Weekday::Saturday => 5,
            Weekday::Sunday => 6,
        }
    }

    /// The one-based number of the day counted from Monday.
    pub fn number_from_monday(self) -> (r: u8)
        ensures
            r == self.index() + 1,
    {
        self.number_days_from_monday() + 1
    }

    /// The zero-based number of the day counted from Sunday.
    pub fn number_days_from_sunday(self) -> (r: u8)
        ensures
            r == (self.index() + 1) % 7,
    {
        match self {
            Weekday::Sunday => 0,
            _ => self.number_days_from_monday() + 1,
        }
    }

    /// The one-based number of the day counted from Sunday.
    pub fn number_from_sunday(self) -> (r: u8)
        ensures
            r == (self.index() + 1) % 7 + 1,
    {
        self.number_days_from_sunday() + 1
    }
}

impl core::str::FromStr for Weekday {
    type Err = ParseWeekdayError;

    /// Reads a weekday from its name.
    fn from_str(s: &str) -> (r: Result<Weekday, ParseWeekdayError>)
        ensures
            r matches Ok(d) ==> d.name_of() == s@,
            r is Err ==> forall|d: Weekday| d.name_of() != s@,
    {
        match Weekday::from_name(s) {
            Some(weekday) => Ok(weekday),
            None => Err(ParseWeekdayError),
        }
    }
}

} // verus!
