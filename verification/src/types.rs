//! Value types shared by every country module.

use core::cmp::Ordering;
use vstd::prelude::*;
use vstd::std_specs::cmp::PartialOrdSpecImpl;

use crate::date::calendar_date;
use crate::text::{push_zero_padded, zero_padded};

verus! {

/// Biological sex as encoded in a national ID.
#[derive(Debug, Clone, Copy, PartialEq, Eq, Hash, Structural)]
#[non_exhaustive]
pub enum Sex {
    /// Rendered as `M`.
    Male,
    /// Rendered as `F`.
    Female,
}

impl Sex {
    /// The canonical rendering: `M` or `F`.
    pub open spec fn text(&self) -> Seq<char> {
        match self {
            Sex::Male => "M"@,
            Sex::Female => "F"@,
        }
    }

    /// Renders the sex as a single character.
    pub fn to_string(&self) -> (s: String)
        ensures
            s@ == self.text(),
    {
        match self {
            Sex::Male => String::from_str("M"),
            Sex::Female => String::from_str("F"),
        }
    }
}

/// A calendar date (year, month, day). Dates are ordered by year, then by
/// month, then by day.
#[derive(Debug, Clone, Copy, PartialEq, Eq, Hash, Ord, Structural)]
pub struct Date {
    /// Year of the common era.
    pub year: u16,
    /// Month of the year, 1 to 12.
    pub month: u8,
    /// Day of the month, from 1.
    pub day: u8,
}

impl Date {
    /// The date names a day of the Gregorian calendar. Every date that
    /// this library hands out does.
    pub open spec fn is_calendar_date(&self) -> bool {
        calendar_date(self.year as int, self.month as int, self.day as int)
    }

    /// The canonical rendering: `YYYY-MM-DD`, each part zero-padded.
    pub open spec fn text(&self) -> Seq<char> {
        zero_padded(self.year as nat, 4) + "-"@ + zero_padded(self.month as nat, 2) + "-"@
            + zero_padded(self.day as nat, 2)
    }

    /// Renders the date as `YYYY-MM-DD`.
    pub fn to_string(&self) -> (s: String)
        ensures
            s@ == self.text(),
    {
        let mut s = String::new();
        push_zero_padded(&mut s, self.year, 4);
        s.append("-");
        push_zero_padded(&mut s, self.month as u16, 2);
        s.append("-");
        push_zero_padded(&mut s, self.day as u16, 2);
        assert(s@ =~= self.text());
        s
    }
}

impl PartialOrd for Date {
    fn partial_cmp(&self, other: &Date) -> (order: Option<Ordering>) {
        if self.year < other.year {
            Some(Ordering::Less)
        } else if self.year > other.year {
            Some(Ordering::Greater)
        } else if self.month < other.month {
            Some(Ordering::Less)
        } else if self.month > other.month {
            Some(Ordering::Greater)
        } else if self.day < other.day {
            Some(Ordering::Less)
        } else if self.day > other.day {
            Some(Ordering::Greater)
        } else {
            Some(Ordering::Equal)
        }
    }
}

impl PartialOrdSpecImpl for Date {
    open spec fn obeys_partial_cmp_spec() -> bool {
        true
    }

    /// The lexicographic order on (year, month, day).
    open spec fn partial_cmp_spec(&self, other: &Date) -> Option<Ordering> {
        if self.year != other.year {
            if self.year < other.year {
                Some(Ordering::Less)
            } else {
                Some(Ordering::Greater)
            }
        } else if self.month != other.month {
            if self.month < other.month {
                Some(Ordering::Less)
            } else {
                Some(Ordering::Greater)
            }
        } else if self.day != other.day {
            if self.day < other.day {
                Some(Ordering::Less)
            } else {
                Some(Ordering::Greater)
            }
        } else {
            Some(Ordering::Equal)
        }
    }
}

} // verus!
