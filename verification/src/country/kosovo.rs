//! Kosovo personal numbers.
//!
//! A personal number is ten digits. The first nine are an opaque payload
//! and the tenth is a check digit.
//!
//! The weights `[4, 3, 2, 7, 6, 5, 4, 3, 2]` are applied to digits 1-9:
//!
//! ```text
//! check = 11 - (sum mod 11)
//! if check == 10 -> use 0
//! if check == 11 -> use 0
//! ```
//!
//! Numbers starting with `'9'` bypass check digit validation.
//!
//! Contracts speak of an input through its UTF-8 bytes: [`validated`] maps
//! the bytes of a string to the result that [`validate`] returns for it.

pub mod error;
pub mod laws;

pub use error::{FormatKind, NidError};

use vstd::prelude::*;
use vstd::string::StringSliceAdditionalSpecFns;

use crate::ascii::{all_digits, digit, digit_value, is_ascii_digit, is_digit};

verus! {

/// Weight of each of the first nine digits, by position.
pub const WEIGHTS: [u8; 9] = [4, 3, 2, 7, 6, 5, 4, 3, 2];

/// Weighted sum of the first `n` digits of `s`.
pub open spec fn weighted_sum(s: Seq<u8>, n: int) -> int
    decreases n,
{
    if n <= 0 {
        0
    } else {
        weighted_sum(s, n - 1) + digit_value(s[n - 1]) * WEIGHTS@[n - 1]
    }
}

/// The check digit that belongs to the first nine digits of `s`: eleven
/// minus the weighted sum modulo eleven, with ten and eleven both read as
/// zero.
pub open spec fn check_digit(s: Seq<u8>) -> int {
    let check = 11 - weighted_sum(s, 9) % 11;
    if check == 10 || check == 11 {
        0
    } else {
        check
    }
}

/// The result of validating an input with the bytes `raw`. Length (ten
/// bytes) is judged before the characters, and a leading `9` exempts the
/// number from the check digit.
pub open spec fn validated(raw: Seq<u8>) -> Result<(), NidError> {
    if raw.len() != 10 {
        Err(NidError::Format(FormatKind::InvalidLength))
    } else if !all_digits(raw) {
        Err(NidError::Format(FormatKind::NonDigitCharacter))
    } else if raw[0] == '9' as u8 {
        Ok(())
    } else if check_digit(raw) == digit_value(raw[9]) {
        Ok(())
    } else {
        Err(NidError::Checksum)
    }
}

/// Whether every byte of `bytes` is a digit.
fn is_all_digits(bytes: &[u8]) -> (digits: bool)
    ensures
        digits == all_digits(bytes@),
{
    let mut i: usize = 0;
    while i < bytes.len()
        invariant
            i <= bytes@.len(),
            forall|j: int| 0 <= j < i ==> is_digit(bytes@[j]),
        decreases bytes@.len() - i,
    {
        if !is_ascii_digit(bytes[i]) {
            return false;
        }
        i += 1;
    }
    true
}

/// Validate a Kosovo personal number string, returning a [`NidError`] on
/// failure: a [`NidError::Format`] if the input has wrong length or
/// non-digit characters, [`NidError::Checksum`] if the check digit does
/// not match.
pub fn validate(nid: &str) -> (result: Result<(), NidError>)
    ensures
        result == validated(nid.spec_bytes()),
{
    let bytes = nid.as_bytes();
    if bytes.len() != 10 {
        return Err(NidError::Format(FormatKind::InvalidLength));
    }
    if !is_all_digits(bytes) {
        return Err(NidError::Format(FormatKind::NonDigitCharacter));
    }
    // Numbers starting with '9' bypass check digit validation.
    if bytes[0] == '9' as u8 {
        return Ok(());
    }
    let mut sum: u16 = 0;
    let mut i: usize = 0;
    while i < 9
        invariant
            i <= 9,
            bytes@.len() == 10,
            all_digits(bytes@),
            sum == weighted_sum(bytes@, i as int),
            sum <= 63 * i,
        decreases 9 - i,
    {
        let value = digit(bytes[i]) as u16;
        let weight = WEIGHTS[i] as u16;
        proof {
            assert(value * weight <= 63) by (nonlinear_arith)
                requires
                    value <= 9,
                    weight <= 7,
            ;
        }
        sum += value * weight;
        i += 1;
    }

    let mut check = 11 - (sum % 11);
    if check == 10 {
        check = 0;
    } else if check == 11 {
        check = 0;
    }
    let expected = digit(bytes[9]) as u16;
    if check != expected {
        return Err(NidError::Checksum);
    }
    Ok(())
}

/// Check whether a Kosovo personal number string is valid.
///
/// This is a convenience wrapper around [`validate`] that returns a simple boolean.
#[inline]
#[must_use]
pub fn is_valid(nid: &str) -> (valid: bool)
    ensures
        valid == validated(nid.spec_bytes()) is Ok,
{
    validate(nid).is_ok()
}

} // verus!
