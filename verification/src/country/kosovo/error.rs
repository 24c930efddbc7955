//! Why a Kosovo personal number was rejected, and the message that says so.

use vstd::prelude::*;

verus! {

/// Errors that can occur when validating a Kosovo personal number.
#[derive(Debug, Clone, Copy, PartialEq, Eq, Structural)]
#[non_exhaustive]
pub enum NidError {
    /// The input string has an invalid format (wrong length, non-digit characters).
    Format(FormatKind),
    /// The check digit does not match the computed value.
    Checksum,
}

/// Specific reason a personal number was rejected due to formatting.
#[derive(Debug, Clone, Copy, PartialEq, Eq, Structural)]
#[non_exhaustive]
pub enum FormatKind {
    /// Input is not exactly 10 characters.
    InvalidLength,
    /// Not all characters are ASCII digits.
    NonDigitCharacter,
}

impl FormatKind {
    /// The message that describes the kind.
    pub open spec fn text(&self) -> Seq<char> {
        match self {
            FormatKind::InvalidLength => "personal number must be exactly 10 digits"@,
            FormatKind::NonDigitCharacter => "all characters must be ASCII digits"@,
        }
    }

    /// Renders the kind as its message.
    pub fn to_string(&self) -> (s: String)
        ensures
            s@ == self.text(),
    {
        match self {
            FormatKind::InvalidLength => String::from_str(
                "personal number must be exactly 10 digits",
            ),
            FormatKind::NonDigitCharacter => String::from_str(
                "all characters must be ASCII digits",
            ),
        }
    }
}

impl NidError {
    /// The message that describes the error: the family, then the kind.
    pub open spec fn text(&self) -> Seq<char> {
        match self {
            NidError::Format(kind) => "format error: "@ + kind.text(),
            NidError::Checksum => "checksum validation failed"@,
        }
    }

    /// Renders the error as its message.
    pub fn to_string(&self) -> (s: String)
        ensures
            s@ == self.text(),
    {
        match self {
            NidError::Format(kind) => {
                let mut s = String::from_str("format error: ");
                s.append(kind.to_string().as_str());
                s
            },
            NidError::Checksum => String::from_str("checksum validation failed"),
        }
    }
}

} // verus!
