//! Grammar Validator: the positional structure of a twelve-character
//! candidate.
//!
//! The rules, applied in this order with the first failure winning: the
//! length is exactly twelve characters (counted as Unicode scalar values);
//! positions 1 and 2 are restricted consonants whose pair is not one of the
//! seven reserved combinations; position 3 is the fixed marker letter `G`;
//! positions 4 to 11 are each a restricted consonant or a decimal digit; and
//! position 12 is a decimal digit. The check digit's arithmetic correctness
//! is a separate stage, in [`crate::checksum`].

use vstd::prelude::*;

use crate::classify::{
    conso_numeric, consonant, digit, is_conso_numeric, is_consonant, is_decimal_digit,
};

verus! {

/// The seven reserved two-letter combinations barred from positions 1 and 2.
pub open spec fn reserved_pair(a: char, b: char) -> bool {
    ||| a == 'B' && b == 'S'
    ||| a == 'B' && b == 'M'
    ||| a == 'G' && b == 'G'
    ||| a == 'G' && b == 'B'
    ||| a == 'G' && b == 'H'
    ||| a == 'K' && b == 'Y'
    ||| a == 'V' && b == 'G'
}

/// Positions 1 and 2 are restricted consonants and do not form a reserved
/// pair.
pub open spec fn prefix_ok(s: Seq<char>) -> bool {
    consonant(s[0]) && consonant(s[1]) && !reserved_pair(s[0], s[1])
}

/// Position 3 is the fixed marker letter.
pub open spec fn marker_ok(s: Seq<char>) -> bool {
    s[2] == 'G'
}

/// Positions 4 to 11 are each a restricted consonant or a decimal digit.
pub open spec fn body_ok(s: Seq<char>) -> bool {
    forall|i: int| 3 <= i < 11 ==> conso_numeric(#[trigger] s[i])
}

/// Position 12 is a decimal digit.
pub open spec fn check_digit_slot_ok(s: Seq<char>) -> bool {
    digit(s[11])
}

/// All five structural rules together.
pub open spec fn grammar_ok(s: Seq<char>) -> bool {
    s.len() == 12 && prefix_ok(s) && marker_ok(s) && body_ok(s) && check_digit_slot_ok(s)
}

/// Whether the two leading characters avoid the seven reserved combinations.
pub fn is_valid_prefix(a: char, b: char) -> (r: bool)
    ensures
        r == !reserved_pair(a, b),
{
    match (a, b) {
        ('B', 'S') | ('B', 'M') | ('G', 'G') | ('G', 'B') | ('G', 'H') | ('K', 'Y')
            | ('V', 'G') => false,
        _ => true,
    }
}

/// Checks positions 1 and 2: both restricted consonants, and not a reserved
/// pair.
pub fn check_prefix(s: &str) -> (r: bool)
    requires
        s@.len() == 12,
    ensures
        r == prefix_ok(s@),
{
    let a = s.get_char(0);
    let b = s.get_char(1);
    is_consonant(a) && is_consonant(b) && is_valid_prefix(a, b)
}

/// Checks position 3 against the fixed marker letter.
pub fn check_marker(s: &str) -> (r: bool)
    requires
        s@.len() == 12,
    ensures
        r == marker_ok(s@),
{
    s.get_char(2) == 'G'
}

/// Checks positions 4 to 11 for the consonant-or-digit class.
pub fn check_body(s: &str) -> (r: bool)
    requires
        s@.len() == 12,
    ensures
        r == body_ok(s@),
{
    let mut i: usize = 3;
    while i < 11
        invariant
            3 <= i <= 11,
            s@.len() == 12,
            forall|j: int| 3 <= j < i ==> conso_numeric(#[trigger] s@[j]),
        decreases 11 - i,
    {
        if !is_conso_numeric(s.get_char(i)) {
            return false;
        }
        i = i + 1;
    }
    true
}

/// Checks that position 12 is a decimal digit.
pub fn check_digit_slot(s: &str) -> (r: bool)
    requires
        s@.len() == 12,
    ensures
        r == check_digit_slot_ok(s@),
{
    is_decimal_digit(s.get_char(11))
}

} // verus!
