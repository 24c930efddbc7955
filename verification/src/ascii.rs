//! ASCII bytes: digits, case folding, and lookup in a symbol alphabet.

use vstd::prelude::*;
use vstd::string::StringSliceAdditionalSpecFns;

verus! {

/// `b` is one of the bytes `'0'..='9'`.
pub open spec fn is_digit(b: u8) -> bool {
    '0' as u8 <= b && b <= '9' as u8
}

/// The number that the digit `b` writes.
pub open spec fn digit_value(b: u8) -> int
    recommends
        is_digit(b),
{
    b - '0' as u8
}

/// Every byte of `s` is a digit.
pub open spec fn all_digits(s: Seq<u8>) -> bool {
    forall|i: int| 0 <= i < s.len() ==> is_digit(#[trigger] s[i])
}

/// `b` with `'a'..='z'` mapped to `'A'..='Z'`; every other byte is unchanged.
pub open spec fn upper(b: u8) -> u8 {
    if 'a' as u8 <= b && b <= 'z' as u8 {
        (b - 32) as u8
    } else {
        b
    }
}

/// `s` with every byte folded to upper case.
pub open spec fn to_upper(s: Seq<u8>) -> Seq<u8> {
    Seq::new(s.len(), |i: int| upper(s[i]))
}

/// Zero-based position of the first symbol of `alphabet` with code `b`.
pub open spec fn symbol_index(alphabet: Seq<char>, b: u8) -> Option<int> {
    alphabet.index_of_first(b as char)
}

/// Whether `b` is one of `'0'..='9'`.
pub(crate) fn is_ascii_digit(b: u8) -> (digit: bool)
    ensures
        digit == is_digit(b),
{
    '0' as u8 <= b && b <= '9' as u8
}

/// The number that the digit `b` writes.
pub(crate) fn digit(b: u8) -> (value: u8)
    requires
        is_digit(b),
    ensures
        value == digit_value(b),
        value <= 9,
{
    b - '0' as u8
}

/// `b` folded to upper case.
pub(crate) fn to_ascii_uppercase(b: u8) -> (folded: u8)
    ensures
        folded == upper(b),
{
    if 'a' as u8 <= b && b <= 'z' as u8 {
        b - 32
    } else {
        b
    }
}

/// Scans `alphabet` from the left for the symbol with code `b`.
pub(crate) fn position(alphabet: &str, b: u8) -> (found: Option<usize>)
    requires
        alphabet.is_ascii(),
    ensures
        match found {
            Some(i) => symbol_index(alphabet@, b) == Some(i as int),
            None => symbol_index(alphabet@, b) is None,
        },
{
    broadcast use vstd::string::is_ascii_spec_bytes;

    let symbols = alphabet.as_bytes();
    let mut i: usize = 0;
    while i < symbols.len()
        invariant
            i <= symbols@.len(),
            symbols@ == alphabet.spec_bytes(),
            alphabet.is_ascii(),
            forall|j: int| 0 <= j < i ==> alphabet@[j] != b as char,
        decreases symbols@.len() - i,
    {
        if symbols[i] == b {
            proof {
                alphabet@.index_of_first_ensures(b as char);
                assert(alphabet@[i as int] == b as char);
            }
            return Some(i);
        }
        i += 1;
    }
    proof {
        alphabet@.index_of_first_ensures(b as char);
    }
    None
}

/// Folding is idempotent, so a folded sequence is its own folding.
pub proof fn lemma_to_upper_idempotent(s: Seq<u8>)
    ensures
        to_upper(to_upper(s)) == to_upper(s),
{
    assert(to_upper(to_upper(s)) =~= to_upper(s));
}

} // verus!
