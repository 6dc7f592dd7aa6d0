//! Checksum Validator: the weighted modulo-10 check digit over positions
//! 1 to 11.
//!
//! Walking the first eleven characters left to right, the code of every
//! second character — the even positions in one-based counting — is doubled.
//! Each weighted code is then reduced by digit-sum reduction: a value of ten
//! or more is replaced by the sum of its own decimal digits (34 becomes 7),
//! in one pass, not by casting out nines. The expected check digit is
//! `(10 - (sum mod 10)) mod 10`, and a candidate passes when the digit in
//! position 12 equals it.

use vstd::prelude::*;

use crate::classify::{char_code, character_code, conso_numeric, digit};

verus! {

/// Digit-sum reduction of a value below 100: the value's tens digit plus its
/// ones digit. Values below ten pass through unchanged.
pub open spec fn digit_sum(n: nat) -> nat {
    n % 10 + n / 10
}

/// The weighted code of position `i` (zero-based): doubled at the odd
/// zero-based positions, which are the even positions in one-based counting.
pub open spec fn weighted_code(s: Seq<char>, i: int) -> nat {
    if i % 2 == 1 {
        2 * char_code(s[i])
    } else {
        char_code(s[i])
    }
}

/// The sum of the digit-sum-reduced weighted codes of positions `0..n`.
pub open spec fn weighted_sum(s: Seq<char>, n: int) -> nat
    decreases n,
{
    if n <= 0 {
        0
    } else {
        weighted_sum(s, n - 1) + digit_sum(weighted_code(s, n - 1))
    }
}

/// The check digit implied by the first eleven characters.
pub open spec fn expected_check_digit(s: Seq<char>) -> nat {
    ((10 - weighted_sum(s, 11) % 10) % 10) as nat
}

/// Whether the digit in position 12 equals the check digit recomputed from
/// positions 1 to 11.
pub open spec fn checksum_ok(s: Seq<char>) -> bool {
    char_code(s[11]) == expected_check_digit(s)
}

/// Digit-sum reduction for values below 100: the remainder modulo ten plus
/// the quotient by ten.
pub fn sum_digits_sub_100(n: u8) -> (r: u8)
    ensures
        r == digit_sum(n as nat),
{
    let rem: u8 = n % 10;
    rem + (n - rem) / 10
}

/// Recomputes the expected check digit of a twelve-character candidate whose
/// first eleven characters are classifiable.
pub fn compute_check_digit(s: &str) -> (r: u8)
    requires
        s@.len() == 12,
        forall|i: int| 0 <= i < 11 ==> conso_numeric(#[trigger] s@[i]),
    ensures
        r == expected_check_digit(s@),
{
    let mut sum: u16 = 0;
    let mut i: usize = 0;
    while i < 11
        invariant
            i <= 11,
            s@.len() == 12,
            forall|j: int| 0 <= j < 11 ==> conso_numeric(#[trigger] s@[j]),
            sum == weighted_sum(s@, i as int),
            sum <= 16 * i,
        decreases 11 - i,
    {
        let c = s.get_char(i);
        let code: u8 = match character_code(c) {
            Some(v) => v,
            None => {
                proof {
                    assert(false);
                }
                0
            },
        };
        let weighted: u8 = if i % 2 == 1 {
            2 * code
        } else {
            code
        };
        sum = sum + sum_digits_sub_100(weighted) as u16;
        i = i + 1;
    }
    ((10 - sum % 10) % 10) as u8
}

/// Whether the candidate's final digit matches the recomputed check digit.
pub fn check_checksum(s: &str) -> (r: bool)
    requires
        s@.len() == 12,
        forall|i: int| 0 <= i < 11 ==> conso_numeric(#[trigger] s@[i]),
        digit(s@[11]),
    ensures
        r == checksum_ok(s@),
{
    let expected = compute_check_digit(s);
    let supplied: u8 = match character_code(s.get_char(11)) {
        Some(v) => v,
        None => {
            proof {
                assert(false);
            }
            0
        },
    };
    supplied == expected
}

} // verus!
