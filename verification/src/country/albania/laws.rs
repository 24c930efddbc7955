//! What holds of every Albanian NID, proved from the definition of
//! [`decoded`].

use vstd::prelude::*;

use super::{
    check_symbol, checksum_index, checksum_verdict, day_of, decade_index, decoded,
    decoded_fields, lemma_checksum_alphabet, lemma_decade_alphabet, month_code_meaning,
    month_code_of, summable, symbol_value, weighted_sum, year_of, DateKind, FormatKind,
    NidError, NidInfo, CHECKSUM_CHARS, DECADE_CHARS,
};
use crate::ascii::{all_digits, is_digit, lemma_to_upper_idempotent, to_upper, upper};

verus! {

/// Nine bytes that can start a NID: a decade symbol, then eight digits.
pub open spec fn valid_prefix(prefix: Seq<u8>) -> bool {
    &&& prefix.len() == 9
    &&& decade_index(prefix[0]) is Some
    &&& all_digits(prefix.subrange(1, 9))
}

/// `prefix` followed by the check character that its bytes call for.
pub open spec fn with_check_symbol(prefix: Seq<u8>) -> Seq<u8> {
    prefix.push(check_symbol(prefix) as u8)
}

/// The decade symbols are the digits, with their number as index, and the
/// letters `A` to `T`, with indices from 10 on.
pub proof fn lemma_decade_index(b: u8)
    ensures
        decade_index(b) == if is_digit(b) {
            Some(b - '0' as u8)
        } else if 'A' as u8 <= b && b <= 'T' as u8 {
            Some(b - 'A' as u8 + 10)
        } else {
            None
        },
{
    lemma_decade_alphabet();
    DECADE_CHARS@.index_of_first_ensures(b as char);
    if is_digit(b) {
        assert(DECADE_CHARS@[b - '0' as u8] == b as char);
    } else if 'A' as u8 <= b && b <= 'T' as u8 {
        assert(DECADE_CHARS@[b - 'A' as u8 + 10] == b as char);
    }
}

/// The checksum symbols are `W`, with index 0, and the letters `A` to `V`,
/// with indices from 1 on.
pub proof fn lemma_checksum_index(b: u8)
    ensures
        checksum_index(b) == if b == 'W' as u8 {
            Some(0int)
        } else if 'A' as u8 <= b && b <= 'V' as u8 {
            Some(b - 'A' as u8 + 1)
        } else {
            None
        },
{
    lemma_checksum_alphabet();
    CHECKSUM_CHARS@.index_of_first_ensures(b as char);
    if b == 'W' as u8 {
        assert(CHECKSUM_CHARS@[0] == b as char);
    } else if 'A' as u8 <= b && b <= 'V' as u8 {
        assert(CHECKSUM_CHARS@[b - 'A' as u8 + 1] == b as char);
    }
}

/// The weighted sum of the first `n` bytes depends on those bytes alone.
pub proof fn lemma_weighted_sum_of_prefix(a: Seq<u8>, b: Seq<u8>, n: int)
    requires
        forall|i: int| 0 <= i < n ==> a[i] == b[i],
    ensures
        weighted_sum(a, n) == weighted_sum(b, n),
    decreases n,
{
    if n > 0 {
        lemma_weighted_sum_of_prefix(a, b, n - 1);
    }
}

/// Decoding ignores letter case: inputs that agree once folded to upper
/// case decode alike, and so an input decodes as its upper-case form does.
pub proof fn lemma_decode_ignores_case(a: Seq<u8>, b: Seq<u8>)
    requires
        to_upper(a) == to_upper(b),
    ensures
        decoded(a) == decoded(b),
        decoded(to_upper(a)) == decoded(a),
{
    assert(a.len() == to_upper(a).len());
    assert(b.len() == to_upper(b).len());
    lemma_to_upper_idempotent(a);
}

/// Bytes with a value in the checksum are digits or upper-case letters, so
/// folding leaves them as they are.
pub proof fn lemma_symbols_are_upper_case(b: u8)
    requires
        symbol_value(b) is Some,
    ensures
        upper(b) == b,
{
    lemma_checksum_index(b);
}

/// Appending the computed check character to nine bytes that all have a
/// value gives ten bytes that pass the checksum stage, so decoding them
/// never fails on checksum grounds.
pub proof fn lemma_check_symbol_passes(prefix: Seq<u8>)
    requires
        prefix.len() == 9,
        summable(prefix),
    ensures
        to_upper(with_check_symbol(prefix)) == with_check_symbol(prefix),
        checksum_verdict(with_check_symbol(prefix)) is Ok,
        decoded(with_check_symbol(prefix)) != Err::<NidInfo, NidError>(NidError::Checksum),
        decoded(with_check_symbol(prefix)) != Err::<NidInfo, NidError>(
            NidError::Format(FormatKind::InvalidChecksumChar),
        ),
{
    let nid = with_check_symbol(prefix);
    let check = check_symbol(prefix);
    lemma_checksum_alphabet();
    assert(check == CHECKSUM_CHARS@[weighted_sum(prefix, 9) % 23]);
    assert(check as u8 as char == check);
    lemma_checksum_index(check as u8);
    assert forall|i: int| 0 <= i < 9 implies symbol_value(#[trigger] nid[i]) is Some by {
        assert(nid[i] == prefix[i]);
    }
    assert forall|i: int| 0 <= i < 10 implies upper(nid[i]) == nid[i] by {
        if i < 9 {
            lemma_symbols_are_upper_case(nid[i]);
        }
    }
    assert(to_upper(nid) =~= nid);
    lemma_weighted_sum_of_prefix(nid, prefix, 9);
    assert(check_symbol(nid) == check);
}

/// A decade symbol followed by eight digits: each of the nine has a value.
pub proof fn lemma_valid_prefix_is_summable(prefix: Seq<u8>)
    requires
        valid_prefix(prefix),
    ensures
        summable(prefix),
{
    lemma_decade_index(prefix[0]);
    assert forall|i: int| 0 <= i < 9 implies symbol_value(#[trigger] prefix[i]) is Some by {
        lemma_checksum_index(prefix[i]);
        if 1 <= i {
            assert(prefix.subrange(1, 9)[i - 1] == prefix[i]);
        }
    }
}

/// Appending the computed check character to a valid prefix gives a string
/// that passes every stage up to and including the checksum. It can fail
/// only on its month code or on its calendar date; where the month code is
/// a known one, only on its calendar date.
pub proof fn lemma_check_symbol_round_trip(prefix: Seq<u8>)
    requires
        valid_prefix(prefix),
    ensures
        decoded(with_check_symbol(prefix)) == decoded_fields(with_check_symbol(prefix)),
        match decoded(with_check_symbol(prefix)) {
            Ok(_) => true,
            Err(NidError::InvalidDate(_)) => true,
            Err(NidError::Format(FormatKind::InvalidMonthCode { code })) => month_code_meaning(code)
                is None && code == month_code_of(prefix),
            Err(_) => false,
        },
        month_code_meaning(month_code_of(prefix)) is Some ==> (decoded(with_check_symbol(prefix))
            matches Err(e) ==> e is InvalidDate),
{
    let nid = with_check_symbol(prefix);
    lemma_valid_prefix_is_summable(prefix);
    lemma_check_symbol_passes(prefix);
    assert forall|i: int| 0 <= i < 8 implies is_digit(#[trigger] nid.subrange(1, 9)[i]) by {
        assert(prefix.subrange(1, 9)[i] == prefix[i + 1]);
    }
}

/// A decoded record holds what the fields of the upper-case input say: a
/// birthday that is a day of the calendar in the years 1800 to 2099, with
/// the month that the month code stands for, and the sex and national
/// status of the month code.
pub proof fn lemma_decoded_record(raw: Seq<u8>)
    ensures
        decoded(raw) matches Ok(info) ==> {
            let s = to_upper(raw);
            &&& info.birthday.is_calendar_date()
            &&& 1800 <= info.birthday.year <= 2099
            &&& info.birthday.year == year_of(s)
            &&& info.birthday.day == day_of(s)
            &&& month_code_meaning(month_code_of(s)) matches Some((offset, sex, is_national))
            &&& info.birthday.month == month_code_of(s) - offset
            &&& info.sex == sex
            &&& info.is_national == is_national
        },
{
    let s = to_upper(raw);
    if decoded(raw) is Ok {
        lemma_decade_index(s[0]);
        assert(is_digit(s.subrange(1, 9)[0]));
        assert(is_digit(s.subrange(1, 9)[1]));
        assert(is_digit(s.subrange(1, 9)[2]));
    }
}

/// The month that a known month code stands for is always one of the
/// twelve, so no decoding reports a month out of range.
pub proof fn lemma_month_never_out_of_range(raw: Seq<u8>)
    ensures
        !(decoded(raw) matches Err(NidError::InvalidDate(DateKind::MonthOutOfRange { .. }))),
{
}

} // verus!
