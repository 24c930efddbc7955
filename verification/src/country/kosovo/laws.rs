//! What holds of every Kosovo personal number, proved from the definition
//! of [`validated`].

use vstd::prelude::*;

use super::{check_digit, validated, weighted_sum, NidError};
use crate::ascii::{all_digits, is_digit};

verus! {

/// `prefix` followed by the check digit that its digits call for.
pub open spec fn with_check_digit(prefix: Seq<u8>) -> Seq<u8> {
    prefix.push(('0' as u8 + check_digit(prefix)) as u8)
}

/// The weighted sum of the first `n` digits depends on those digits alone.
pub proof fn lemma_weighted_sum_of_prefix(a: Seq<u8>, b: Seq<u8>, n: int)
    requires
        forall|i: int| 0 <= i < n ==> a[i] == b[i],
    ensures
        weighted_sum(a, n) == weighted_sum(b, n),
    decreases n,
{
    if n > 0 {
        lemma_weighted_sum_of_prefix(a, b, n - 1);
    }
}

/// A `9` followed by any nine digits is a valid number, whatever check
/// digit the first nine would call for.
pub proof fn lemma_leading_nine_is_valid(suffix: Seq<u8>)
    requires
        suffix.len() == 9,
        all_digits(suffix),
    ensures
        validated(seq!['9' as u8] + suffix) == Ok::<(), NidError>(()),
{
    let nid = seq!['9' as u8] + suffix;
    assert forall|i: int| 0 <= i < nid.len() implies is_digit(#[trigger] nid[i]) by {
        if i > 0 {
            assert(nid[i] == suffix[i - 1]);
        }
    }
}

/// The check digit is a single digit, and appending it to nine digits
/// gives a valid number.
pub proof fn lemma_check_digit_round_trip(prefix: Seq<u8>)
    requires
        prefix.len() == 9,
        all_digits(prefix),
    ensures
        0 <= check_digit(prefix) <= 9,
        validated(with_check_digit(prefix)) == Ok::<(), NidError>(()),
{
    let nid = with_check_digit(prefix);
    assert forall|i: int| 0 <= i < nid.len() implies is_digit(#[trigger] nid[i]) by {
        if i < 9 {
            assert(nid[i] == prefix[i]);
        }
    }
    lemma_weighted_sum_of_prefix(nid, prefix, 9);
}

} // verus!
