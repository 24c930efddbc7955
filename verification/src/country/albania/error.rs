//! Why an Albanian NID was rejected, and the message that says so.

use vstd::prelude::*;

use crate::text::{decimal, push_decimal, push_zero_padded, zero_padded};

verus! {

/// Specific reason a NID was rejected due to formatting.
#[derive(Debug, Clone, Copy, PartialEq, Eq, Structural)]
#[non_exhaustive]
pub enum FormatKind {
    /// Input is not exactly 10 characters.
    InvalidLength,
    /// The first (decade) character is not in the valid range `0`-`9`, `A`-`T`.
    InvalidDecadeChar,
    /// Characters at positions 2-9 are not all ASCII digits.
    NonDigitCharacter,
    /// The checksum (10th) character is not in the checksum alphabet.
    InvalidChecksumChar,
    /// The two-digit month code does not map to any known range.
    InvalidMonthCode {
        /// The raw two-digit month code that was found.
        code: u8,
    },
}

/// Specific reason a NID was rejected due to an invalid date.
#[derive(Debug, Clone, Copy, PartialEq, Eq, Structural)]
#[non_exhaustive]
pub enum DateKind {
    /// The decoded month is outside 1-12.
    MonthOutOfRange {
        /// The decoded month value.
        month: u8,
    },
    /// The decoded day is outside the valid range for the given year and month.
    DayOutOfRange {
        /// The decoded year.
        year: u16,
        /// The decoded month.
        month: u8,
        /// The decoded day.
        day: u8,
    },
}

/// Errors that can occur when decoding an Albanian NID.
#[derive(Debug, Clone, Copy, PartialEq, Eq, Structural)]
#[non_exhaustive]
pub enum NidError {
    /// The input string has an invalid format (wrong length, illegal characters, etc.).
    Format(FormatKind),
    /// The checksum character does not match the computed value.
    Checksum,
    /// The encoded date is not a valid calendar date.
    InvalidDate(DateKind),
}

impl FormatKind {
    /// The message that describes the kind.
    pub open spec fn text(&self) -> Seq<char> {
        match self {
            FormatKind::InvalidLength => "NID must be exactly 10 characters"@,
            FormatKind::InvalidDecadeChar => "first character out of range"@,
            FormatKind::NonDigitCharacter => "characters 2-9 must be ASCII digits"@,
            FormatKind::InvalidChecksumChar => "invalid checksum character"@,
            FormatKind::InvalidMonthCode { code } => "invalid month code: "@ + decimal(*code as nat),
        }
    }

    /// Renders the kind as its message.
    pub fn to_string(&self) -> (s: String)
        ensures
            s@ == self.text(),
    {
        match self {
            FormatKind::InvalidLength => String::from_str("NID must be exactly 10 characters"),
            FormatKind::InvalidDecadeChar => String::from_str("first character out of range"),
            FormatKind::NonDigitCharacter => String::from_str(
                "characters 2-9 must be ASCII digits",
            ),
            FormatKind::InvalidChecksumChar => String::from_str("invalid checksum character"),
            FormatKind::InvalidMonthCode { code } => {
                let mut s = String::from_str("invalid month code: ");
                push_decimal(&mut s, *code as u16);
                s
            },
        }
    }
}

impl DateKind {
    /// The message that describes the kind. The month of a day out of range
    /// is written with two digits.
    pub open spec fn text(&self) -> Seq<char> {
        match self {
            DateKind::MonthOutOfRange { month } => "month "@ + decimal(*month as nat)
                + " out of range"@,
            DateKind::DayOutOfRange { year, month, day } => "day "@ + decimal(*day as nat)
                + " is out of range for "@ + decimal(*year as nat) + "-"@ + zero_padded(
                *month as nat,
                2,
            ),
        }
    }

    /// Renders the kind as its message.
    pub fn to_string(&self) -> (s: String)
        ensures
            s@ == self.text(),
    {
        match self {
            DateKind::MonthOutOfRange { month } => {
                let mut s = String::from_str("month ");
                push_decimal(&mut s, *month as u16);
                s.append(" out of range");
                s
            },
            DateKind::DayOutOfRange { year, month, day } => {
                let mut s = String::from_str("day ");
                push_decimal(&mut s, *day as u16);
                s.append(" is out of range for ");
                push_decimal(&mut s, *year);
                s.append("-");
                push_zero_padded(&mut s, *month as u16, 2);
                s
            },
        }
    }
}

impl NidError {
    /// The message that describes the error: the family, then the kind.
    pub open spec fn text(&self) -> Seq<char> {
        match self {
            NidError::Format(kind) => "format error: "@ + kind.text(),
            NidError::Checksum => "checksum validation failed"@,
            NidError::InvalidDate(kind) => "invalid date: "@ + kind.text(),
        }
    }

    /// Renders the error as its message.
    pub fn to_string(&self) -> (s: String)
        ensures
            s@ == self.text(),
    {
        match self {
            NidError::Format(kind) => {
                let mut s = String::from_str("format error: ");
                s.append(kind.to_string().as_str());
                s
            },
            NidError::Checksum => String::from_str("checksum validation failed"),
            NidError::InvalidDate(kind) => {
                let mut s = String::from_str("invalid date: ");
                s.append(kind.to_string().as_str());
                s
            },
        }
    }
}

} // verus!
