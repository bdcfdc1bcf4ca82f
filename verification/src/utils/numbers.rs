//! Numbers written as text, in base ten.

use vstd::prelude::*;

verus! {

/// Whether a character is one of the ten digits.
pub open spec fn is_digit(c: char) -> bool {
    '0' <= c <= '9'
}

/// Whether a text is one or more digits and nothing else.
pub open spec fn is_digits(text: Seq<char>) -> bool {
    text.len() > 0 && forall|i: int| 0 <= i < text.len() ==> is_digit(#[trigger] text[i])
}

/// The number that a run of digits denotes in base ten.
pub open spec fn decimal(digits: Seq<char>) -> int
    decreases digits.len(),
{
    if digits.len() == 0 {
        0
    } else {
        decimal(digits.drop_last()) * 10 + (digits.last() as int - '0' as int)
    }
}

/// The digits of a number text: the text without its sign.
pub open spec fn unsigned_part(text: Seq<char>) -> Seq<char> {
    if text.len() > 0 && (text[0] == '-' || text[0] == '+') {
        text.skip(1)
    } else {
        text
    }
}

/// The score that a text denotes: an optional sign, `+` or `-`, and then
/// one or more digits and nothing else, for a number in the range of a
/// score. Any other text denotes none.
pub open spec fn score_of(text: Seq<char>) -> Option<int> {
    let digits = unsigned_part(text);
    let number = if text.len() > 0 && text[0] == '-' {
        -decimal(digits)
    } else {
        decimal(digits)
    };
    if is_digits(digits) && i64::MIN <= number <= i64::MAX {
        Some(number)
    } else {
        None
    }
}

/// The count that a text denotes: an optional `+`, then one or more digits
/// and nothing else, for a number in the range of a count. Any other text
/// denotes none: a count has no `-`.
pub open spec fn count_of(text: Seq<char>) -> Option<int> {
    let digits = if text.len() > 0 && text[0] == '+' {
        text.skip(1)
    } else {
        text
    };
    if is_digits(digits) && decimal(digits) <= u64::MAX {
        Some(decimal(digits))
    } else {
        None
    }
}

/// The number in an optional score.
pub open spec fn optional_number(score: Option<i64>) -> Option<int> {
    match score {
        Some(score) => Some(score as int),
        None => None,
    }
}

/// The number in an optional count.
pub open spec fn optional_count(count: Option<u64>) -> Option<int> {
    match count {
        Some(count) => Some(count as int),
        None => None,
    }
}

/// `str::parse` for `i64`: the number that the text denotes in base ten,
/// with an optional sign before its digits, where the whole text is such a
/// number and it fits.
#[verifier::external_body]
pub(crate) fn parse_score(text: &str) -> (score: Option<i64>)
    ensures
        optional_number(score) == score_of(text@),
{
    match text.parse::<i64>() {
        Ok(score) => Some(score),
        Err(_) => None,
    }
}

/// `str::parse` for `u64`: the number that the text denotes in base ten,
/// with an optional `+` before its digits, where the whole text is such a
/// number and it fits.
#[verifier::external_body]
pub(crate) fn parse_count(text: &str) -> (count: Option<u64>)
    ensures
        optional_count(count) == count_of(text@),
{
    match text.parse::<u64>() {
        Ok(count) => Some(count),
        Err(_) => None,
    }
}

} // verus!
