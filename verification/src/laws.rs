//! The library-wide laws, each proved against the parser's contract
//! [`parse_result_matches`] rather than against any one implementation
//! detail: round-tripping, determinism and idempotence of parsing, the
//! length boundary, reserved-prefix rejection, and checksum sensitivity.

use vstd::prelude::*;

use crate::checksum::{checksum_ok, expected_check_digit, weighted_code, weighted_sum};
use crate::classify::{char_code, digit};
use crate::figi::{parse_result_matches, valid_figi, Figi, InvalidFigi};
use crate::grammar::{
    body_ok, check_digit_slot_ok, grammar_ok, marker_ok, prefix_ok, reserved_pair,
};

verus! {

/// Two parse outcomes agree: both succeed with identifiers of the same
/// characters, or both fail with the same error variant carrying the same
/// text.
pub open spec fn results_agree(r1: Result<Figi, InvalidFigi>, r2: Result<Figi, InvalidFigi>) -> bool {
    match (r1, r2) {
        (Ok(a), Ok(b)) => a@ == b@,
        (Err(a), Err(b)) => errors_agree(a, b),
        _ => false,
    }
}

/// Two errors agree: the same variant, carrying the same text.
pub open spec fn errors_agree(a: InvalidFigi, b: InvalidFigi) -> bool {
    match (a, b) {
        (InvalidFigi::InvalidLength(x), InvalidFigi::InvalidLength(y)) => x@ == y@,
        (InvalidFigi::InvalidPrefix(x), InvalidFigi::InvalidPrefix(y)) => x@ == y@,
        (InvalidFigi::InvalidMarker(x), InvalidFigi::InvalidMarker(y)) => x@ == y@,
        (InvalidFigi::InvalidBodyCharacter(x), InvalidFigi::InvalidBodyCharacter(y)) => x@ == y@,
        (InvalidFigi::InvalidCheckDigitFormat(x), InvalidFigi::InvalidCheckDigitFormat(y)) => x@
            == y@,
        (InvalidFigi::InvalidChecksum(x), InvalidFigi::InvalidChecksum(y)) => x@ == y@,
        _ => false,
    }
}

/// Round-trip law: when `parse` accepts an input, the identifier it returns
/// renders to exactly that input, and the input satisfies the full ruleset.
pub proof fn lemma_parse_round_trip(s: Seq<char>, f: Figi)
    requires
        parse_result_matches(s, Ok(f)),
    ensures
        f@ == s,
        valid_figi(s),
{
}

/// Determinism law: `parse` is a function of the input's character sequence
/// alone — any two outcomes that satisfy its contract for the same sequence
/// agree.
pub proof fn lemma_parse_deterministic(
    s: Seq<char>,
    r1: Result<Figi, InvalidFigi>,
    r2: Result<Figi, InvalidFigi>,
)
    requires
        parse_result_matches(s, r1),
        parse_result_matches(s, r2),
    ensures
        results_agree(r1, r2),
{
}

/// Idempotence law: rendering a parsed identifier and parsing the rendering
/// succeeds again, with an identifier of the same characters — so the second
/// outcome agrees with the first.
pub proof fn lemma_parse_idempotent(s: Seq<char>, f: Figi, r2: Result<Figi, InvalidFigi>)
    requires
        parse_result_matches(s, Ok(f)),
        parse_result_matches(f@, r2),
    ensures
        r2 matches Ok(f2) && f2@ == f@,
{
}

/// Length-boundary law: an input one character short or one character long
/// of twelve is always rejected as `InvalidLength`, carrying the input.
pub proof fn lemma_length_boundary(s: Seq<char>, r: Result<Figi, InvalidFigi>)
    requires
        s.len() == 11 || s.len() == 13,
        parse_result_matches(s, r),
    ensures
        r matches Err(InvalidFigi::InvalidLength(t)) && t@ == s,
{
}

/// Reserved-prefix law: a twelve-character input whose first two characters
/// form a reserved pair is always rejected as `InvalidPrefix`, whatever
/// stands in positions 3 to 12.
pub proof fn lemma_reserved_prefix_rejected(s: Seq<char>, r: Result<Figi, InvalidFigi>)
    requires
        s.len() == 12,
        reserved_pair(s[0], s[1]),
        parse_result_matches(s, r),
    ensures
        r matches Err(InvalidFigi::InvalidPrefix(t)) && t@ == s,
{
}

/// The weighted sum over the first `n` positions reads nothing beyond them:
/// two sequences that agree there have the same sum.
proof fn lemma_weighted_sum_same_prefix(s1: Seq<char>, s2: Seq<char>, n: int)
    requires
        forall|i: int| 0 <= i < n ==> s1[i] == s2[i],
    ensures
        weighted_sum(s1, n) == weighted_sum(s2, n),
    decreases n,
{
    if n > 0 {
        lemma_weighted_sum_same_prefix(s1, s2, n - 1);
        assert(weighted_code(s1, n - 1) == weighted_code(s2, n - 1));
    }
}

/// Distinct digits carry distinct checksum codes.
proof fn lemma_digit_codes_distinct(a: char, b: char)
    requires
        digit(a),
        digit(b),
        a != b,
    ensures
        char_code(a) != char_code(b),
{
}

/// Checksum-sensitivity law: replacing only the final digit of an identifier
/// that satisfies the full ruleset by any other digit is always rejected as
/// `InvalidChecksum` — every one of the nine possible flips fails.
pub proof fn lemma_checksum_sensitivity(s: Seq<char>, d: char, r: Result<Figi, InvalidFigi>)
    requires
        valid_figi(s),
        digit(d),
        d != s[11],
        parse_result_matches(s.update(11, d), r),
    ensures
        r matches Err(InvalidFigi::InvalidChecksum(t)) && t@ == s.update(11, d),
{
    let s2 = s.update(11, d);
    assert(prefix_ok(s2) == prefix_ok(s));
    assert(marker_ok(s2) == marker_ok(s));
    assert(body_ok(s2)) by {
        assert(forall|i: int| 3 <= i < 11 ==> s2[i] == s[i]);
    }
    assert(check_digit_slot_ok(s2));
    assert(grammar_ok(s2));
    lemma_weighted_sum_same_prefix(s, s2, 11);
    assert(expected_check_digit(s2) == expected_check_digit(s));
    lemma_digit_codes_distinct(d, s[11]);
    assert(!checksum_ok(s2));
}

} // verus!
