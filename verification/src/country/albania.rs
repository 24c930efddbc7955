//! Albanian National ID (NID) numbers.
//!
//! A NID is ten characters, read case-insensitively:
//!
//! `[decade][year digit][month code (2)][day (2)][serial (3)][check character]`
//!
//! - The decade character is a symbol of [`DECADE_CHARS`]; the symbol at
//!   index `i` stands for the decade that starts in `1800 + 10 * i`.
//! - The month code carries the calendar month together with sex and
//!   national status: `01`-`12` male national, `31`-`42` male foreigner,
//!   `51`-`62` female national, `81`-`92` female foreigner.
//! - The check character is the symbol of [`CHECKSUM_CHARS`] at the index
//!   given by the weighted sum of the first nine characters modulo 23.
//!
//! Contracts speak of an input through its UTF-8 bytes: [`decoded`] maps
//! the bytes of a string to the result that [`decode`] returns for it.

pub mod error;
pub mod laws;

pub use error::{DateKind, FormatKind, NidError};

use vstd::prelude::*;
use vstd::string::StringSliceAdditionalSpecFns;

use crate::ascii::{
    all_digits, digit, digit_value, is_ascii_digit, is_digit, position, symbol_index,
    to_ascii_uppercase, to_upper, upper,
};
use crate::date::{calendar_date, validate_date};
use crate::types::{Date, Sex};

verus! {

/// Symbols of the decade character; the index of a symbol, times ten, plus
/// 1800 is the first year of its decade.
pub const DECADE_CHARS: &'static str = "0123456789ABCDEFGHIJKLMNOPQRST";

/// Symbols of the check character. The index of a symbol is also its value
/// when it occurs among the first nine characters.
pub const CHECKSUM_CHARS: &'static str = "WABCDEFGHIJKLMNOPQRSTUV";

/// Decoded information from a valid Albanian NID.
#[derive(Debug, Clone, Copy, PartialEq, Eq, Hash, Structural)]
pub struct NidInfo {
    /// Date of birth.
    pub birthday: Date,
    /// Biological sex.
    pub sex: Sex,
    /// `true` if the NID holder is an Albanian national, `false` for foreign residents.
    pub is_national: bool,
}

/// Index of the byte `b` in the decade alphabet.
pub open spec fn decade_index(b: u8) -> Option<int> {
    symbol_index(DECADE_CHARS@, b)
}

/// Index of the byte `b` in the checksum alphabet.
pub open spec fn checksum_index(b: u8) -> Option<int> {
    symbol_index(CHECKSUM_CHARS@, b)
}

/// What a byte among the first nine contributes to the checksum: a digit
/// its number, a checksum symbol its index, anything else nothing.
pub open spec fn symbol_value(b: u8) -> Option<int> {
    if is_digit(b) {
        Some(digit_value(b))
    } else {
        checksum_index(b)
    }
}

/// Each of the first nine bytes of `s` has a value in the checksum.
pub open spec fn summable(s: Seq<u8>) -> bool {
    forall|i: int| 0 <= i < 9 ==> symbol_value(#[trigger] s[i]) is Some
}

/// Weight of position `i` in the checksum: the position itself, except
/// that position 0 weighs 1.
pub open spec fn position_weight(i: int) -> int {
    if i == 0 {
        1
    } else {
        i
    }
}

/// Weighted sum of the values of the first `n` bytes of `s`.
pub open spec fn weighted_sum(s: Seq<u8>, n: int) -> int
    decreases n,
{
    if n <= 0 {
        0
    } else {
        weighted_sum(s, n - 1) + position_weight(n - 1) * symbol_value(s[n - 1]).unwrap()
    }
}

/// The check character that belongs to the first nine bytes of `s`.
pub open spec fn check_symbol(s: Seq<u8>) -> char {
    CHECKSUM_CHARS@[weighted_sum(s, 9) % 23]
}

/// Outcome of the checksum stage on ten bytes `s`: a format error when the
/// tenth byte is no checksum symbol or a byte before it has no value; a
/// checksum error when the tenth byte is not the one that the first nine
/// call for.
pub open spec fn checksum_verdict(s: Seq<u8>) -> Result<(), NidError> {
    if checksum_index(s[9]) is None || !summable(s) {
        Err(NidError::Format(FormatKind::InvalidChecksumChar))
    } else if s[9] as char == check_symbol(s) {
        Ok(())
    } else {
        Err(NidError::Checksum)
    }
}

/// Meaning of a month code: the offset to subtract to get the calendar
/// month, the sex, and whether the holder is a national.
pub open spec fn month_code_meaning(code: u8) -> Option<(u8, Sex, bool)> {
    if 1 <= code <= 12 {
        Some((0u8, Sex::Male, true))
    } else if 31 <= code <= 42 {
        Some((30u8, Sex::Male, false))
    } else if 51 <= code <= 62 {
        Some((50u8, Sex::Female, true))
    } else if 81 <= code <= 92 {
        Some((80u8, Sex::Female, false))
    } else {
        None
    }
}

/// The number written by the two digits of `s` that start at `at`.
pub open spec fn two_digit_number(s: Seq<u8>, at: int) -> int {
    digit_value(s[at]) * 10 + digit_value(s[at + 1])
}

/// Year of birth: the decade of the first byte plus the digit that follows.
pub open spec fn year_of(s: Seq<u8>) -> u16 {
    (1800 + decade_index(s[0]).unwrap() * 10 + digit_value(s[1])) as u16
}

/// The month code: the number at positions 2 and 3.
pub open spec fn month_code_of(s: Seq<u8>) -> u8 {
    two_digit_number(s, 2) as u8
}

/// Day of birth: the number at positions 4 and 5.
pub open spec fn day_of(s: Seq<u8>) -> u8 {
    two_digit_number(s, 4) as u8
}

/// What the fields of ten upper-case bytes `s` say, once format and
/// checksum are in order: an unknown month code is a format error, a
/// date that the calendar lacks an error of the date, and the record
/// otherwise.
pub open spec fn decoded_fields(s: Seq<u8>) -> Result<NidInfo, NidError> {
    let code = month_code_of(s);
    match month_code_meaning(code) {
        None => Err(NidError::Format(FormatKind::InvalidMonthCode { code })),
        Some((offset, sex, is_national)) => {
            let year = year_of(s);
            let month = (code - offset) as u8;
            let day = day_of(s);
            if calendar_date(year as int, month as int, day as int) {
                Ok(NidInfo { birthday: Date { year, month, day }, sex, is_national })
            } else if !(1 <= month <= 12) {
                Err(NidError::InvalidDate(DateKind::MonthOutOfRange { month }))
            } else {
                Err(NidError::InvalidDate(DateKind::DayOutOfRange { year, month, day }))
            }
        },
    }
}

/// The result of decoding an input with the bytes `raw`. Letters are folded
/// to upper case first. The stages then run in this order, and the first
/// that fails names the error: length (ten bytes), decade character,
/// digits at positions 1 to 8, checksum, month code, calendar date.
pub open spec fn decoded(raw: Seq<u8>) -> Result<NidInfo, NidError> {
    let s = to_upper(raw);
    if raw.len() != 10 {
        Err(NidError::Format(FormatKind::InvalidLength))
    } else if decade_index(s[0]) is None {
        Err(NidError::Format(FormatKind::InvalidDecadeChar))
    } else if !all_digits(s.subrange(1, 9)) {
        Err(NidError::Format(FormatKind::NonDigitCharacter))
    } else {
        match checksum_verdict(s) {
            Err(e) => Err(e),
            Ok(_) => decoded_fields(s),
        }
    }
}

/// The decade alphabet written out: ten digits, then `A` to `T`.
pub proof fn lemma_decade_alphabet()
    ensures
        DECADE_CHARS@.len() == 30,
        forall|i: int| 0 <= i < 10 ==> DECADE_CHARS@[i] == ('0' as u8 + i) as char,
        forall|i: int| 10 <= i < 30 ==> DECADE_CHARS@[i] == ('A' as u8 + i - 10) as char,
        DECADE_CHARS.is_ascii(),
{
    reveal_strlit("0123456789ABCDEFGHIJKLMNOPQRST");
}

/// The checksum alphabet written out: `W`, then `A` to `V`.
pub proof fn lemma_checksum_alphabet()
    ensures
        CHECKSUM_CHARS@.len() == 23,
        CHECKSUM_CHARS@[0] == 'W',
        forall|i: int| 1 <= i < 23 ==> CHECKSUM_CHARS@[i] == ('A' as u8 + i - 1) as char,
        CHECKSUM_CHARS.is_ascii(),
{
    reveal_strlit("WABCDEFGHIJKLMNOPQRSTUV");
}

/// Decode a two-digit month code into (offset, sex, is_national).
///
/// Month codes encode both the calendar month and sex/national status:
/// - `01`-`12` = male Albanian (offset 0)
/// - `31`-`42` = male foreigner (offset 30)
/// - `51`-`62` = female Albanian (offset 50)
/// - `81`-`92` = female foreigner (offset 80)
pub fn decode_month_code(code: u8) -> (meaning: Option<(u8, Sex, bool)>)
    ensures
        meaning == month_code_meaning(code),
{
    match code {
        1..=12 => Some((0, Sex::Male, true)),
        31..=42 => Some((30, Sex::Male, false)),
        51..=62 => Some((50, Sex::Female, true)),
        81..=92 => Some((80, Sex::Female, false)),
        _ => None,
    }
}

/// Verify the check character of ten bytes, letters in upper case.
pub fn verify_checksum(bytes: &[u8; 10]) -> (result: Result<(), NidError>)
    ensures
        result == checksum_verdict(bytes@),
{
    broadcast use vstd::string::is_ascii_spec_bytes;

    proof {
        lemma_checksum_alphabet();
    }
    let check_char = bytes[9];
    if position(CHECKSUM_CHARS, check_char).is_none() {
        return Err(NidError::Format(FormatKind::InvalidChecksumChar));
    }
    let mut total: usize = 0;
    let mut i: usize = 0;
    while i < 9
        invariant
            i <= 9,
            CHECKSUM_CHARS.is_ascii(),
            CHECKSUM_CHARS@.len() == 23,
            forall|j: int| 0 <= j < i ==> symbol_value(#[trigger] bytes@[j]) is Some,
            total == weighted_sum(bytes@, i as int),
            total <= 176 * i,
        decreases 9 - i,
    {
        let ch = bytes[i];
        // Position 0 uses weight 1 (not 0), so the decade char contributes to the checksum.
        let weight: usize = if i == 0 {
            1
        } else {
            i
        };
        let value: usize = if is_ascii_digit(ch) {
            digit(ch) as usize
        } else {
            match position(CHECKSUM_CHARS, ch) {
                Some(index) => index,
                None => {
                    return Err(NidError::Format(FormatKind::InvalidChecksumChar));
                },
            }
        };
        proof {
            CHECKSUM_CHARS@.index_of_first_ensures(ch as char);
            assert(value == symbol_value(ch).unwrap());
            assert(weight * value <= 176) by (nonlinear_arith)
                requires
                    weight <= 8,
                    value <= 22,
            ;
        }
        total += weight * value;
        i += 1;
    }
    let symbols = CHECKSUM_CHARS.as_bytes();
    if symbols[total % 23] == check_char {
        Ok(())
    } else {
        Err(NidError::Checksum)
    }
}

/// Copies ten bytes, folding letters to upper case.
fn normalize(src: &[u8]) -> (bytes: [u8; 10])
    requires
        src@.len() == 10,
    ensures
        bytes@ == to_upper(src@),
{
    let mut bytes = [0u8; 10];
    let mut i: usize = 0;
    while i < 10
        invariant
            i <= 10,
            src@.len() == 10,
            forall|j: int| 0 <= j < i ==> bytes@[j] == upper(src@[j]),
        decreases 10 - i,
    {
        bytes[i] = to_ascii_uppercase(src[i]);
        i += 1;
    }
    assert(bytes@ =~= to_upper(src@));
    bytes
}

/// Whether the bytes at positions 1 to 8 are all digits.
fn middle_is_digits(bytes: &[u8; 10]) -> (digits: bool)
    ensures
        digits == all_digits(bytes@.subrange(1, 9)),
{
    let mut i: usize = 1;
    while i < 9
        invariant
            1 <= i <= 9,
            forall|j: int| 1 <= j < i ==> is_digit(bytes@[j]),
        decreases 9 - i,
    {
        if !is_ascii_digit(bytes[i]) {
            assert(bytes@.subrange(1, 9)[i - 1] == bytes@[i as int]);
            return false;
        }
        i += 1;
    }
    true
}

/// Decode an Albanian National ID string into its constituent parts.
///
/// The input is treated case-insensitively. Returns a [`NidInfo`] on success,
/// or a [`NidError`] describing why the input is invalid: a
/// [`NidError::Format`] if the input has wrong length, illegal characters,
/// or an unrecognised month code; [`NidError::Checksum`] if the check
/// character does not match; a [`NidError::InvalidDate`] if the encoded
/// date is not a valid calendar date.
#[must_use]
pub fn decode(nid: &str) -> (result: Result<NidInfo, NidError>)
    ensures
        result == decoded(nid.spec_bytes()),
        result matches Ok(info) ==> info.birthday.is_calendar_date(),
{
    let src = nid.as_bytes();
    if src.len() != 10 {
        return Err(NidError::Format(FormatKind::InvalidLength));
    }
    let bytes = normalize(src);

    proof {
        lemma_decade_alphabet();
    }
    let decade = match position(DECADE_CHARS, bytes[0]) {
        Some(index) => index,
        None => {
            return Err(NidError::Format(FormatKind::InvalidDecadeChar));
        },
    };

    if !middle_is_digits(&bytes) {
        return Err(NidError::Format(FormatKind::NonDigitCharacter));
    }
    proof {
        DECADE_CHARS@.index_of_first_ensures(bytes[0] as char);
        assert forall|j: int| 1 <= j < 9 implies is_digit(bytes@[j]) by {
            assert(bytes@.subrange(1, 9)[j - 1] == bytes@[j]);
        }
    }

    match verify_checksum(&bytes) {
        Err(e) => {
            return Err(e);
        },
        Ok(_) => {},
    }

    let year = 1800 + (decade as u16 * 10) + digit(bytes[1]) as u16;

    let month_code = digit(bytes[2]) * 10 + digit(bytes[3]);

    let (offset, sex, is_national) = match decode_month_code(month_code) {
        Some(meaning) => meaning,
        None => {
            return Err(NidError::Format(FormatKind::InvalidMonthCode { code: month_code }));
        },
    };

    let month = month_code - offset;

    let day = digit(bytes[4]) * 10 + digit(bytes[5]);

    match validate_date(year, month, day) {
        Some(birthday) => Ok(NidInfo { birthday, sex, is_national }),
        None => Err(
            NidError::InvalidDate(
                if month < 1 || month > 12 {
                    DateKind::MonthOutOfRange { month }
                } else {
                    DateKind::DayOutOfRange { year, month, day }
                },
            ),
        ),
    }
}

/// Validate an Albanian National ID string: the outcome of [`decode`]
/// without the decoded record.
pub fn validate(nid: &str) -> (result: Result<(), NidError>)
    ensures
        result == match decoded(nid.spec_bytes()) {
            Ok(_) => Ok::<(), NidError>(()),
            Err(e) => Err(e),
        },
{
    match decode(nid) {
        Ok(_) => Ok(()),
        Err(e) => Err(e),
    }
}

/// Check whether an Albanian National ID string is valid.
///
/// This is a convenience wrapper around [`decode`] that discards the decoded
/// information and returns a simple boolean.
#[inline]
#[must_use]
pub fn is_valid(nid: &str) -> (valid: bool)
    ensures
        valid == decoded(nid.spec_bytes()) is Ok,
{
    decode(nid).is_ok()
}

} // verus!
