//! Identifier Parser: the composition root that runs the grammar and
//! checksum stages in order and produces a validated [`Figi`] or a specific
//! [`InvalidFigi`] error.
//!
//! `parse` is pure and deterministic: the outcome is a function of the
//! input's character sequence alone, the first violated rule is reported, and
//! a success carries the input back unchanged — no normalization of any kind
//! is performed.

use vstd::prelude::*;

use crate::checksum::{check_checksum, checksum_ok};
use crate::classify::{conso_numeric, consonant};
use crate::grammar::{
    body_ok, check_body, check_digit_slot, check_digit_slot_ok, check_marker, check_prefix,
    grammar_ok, marker_ok, prefix_ok,
};

verus! {

/// A validated FIGI identifier: exactly twelve characters satisfying both
/// the positional grammar and the checksum. There is no unchecked
/// constructor; a value exists only as the result of successful parsing.
#[derive(Debug, Clone, PartialEq, Eq)]
pub struct Figi {
    repr: String,
}

/// The closed set of mutually exclusive failure reasons, each carrying the
/// offending input for diagnostics.
#[derive(Debug, Clone, PartialEq, Eq)]
pub enum InvalidFigi {
    /// The input is not exactly twelve characters.
    InvalidLength(String),
    /// Positions 1 and 2 are not both restricted consonants, or form a
    /// reserved pair.
    InvalidPrefix(String),
    /// Position 3 is not the fixed marker letter.
    InvalidMarker(String),
    /// One of positions 4 to 11 is neither a restricted consonant nor a
    /// digit.
    InvalidBodyCharacter(String),
    /// Position 12 is not a decimal digit.
    InvalidCheckDigitFormat(String),
    /// All positions are structurally valid but the check digit does not
    /// match.
    InvalidChecksum(String),
}

/// A sequence that satisfies the full ruleset: grammar and checksum.
pub open spec fn valid_figi(s: Seq<char>) -> bool {
    grammar_ok(s) && checksum_ok(s)
}

/// The exact grammar error owed to `s`: which variant is returned, under
/// which conditions, always carrying the offending input. The conditions
/// encode the fixed evaluation order, so at most one variant fits any `s`.
pub open spec fn grammar_error_matches(s: Seq<char>, e: InvalidFigi) -> bool {
    match e {
        InvalidFigi::InvalidLength(t) => s.len() != 12 && t@ == s,
        InvalidFigi::InvalidPrefix(t) => s.len() == 12 && !prefix_ok(s) && t@ == s,
        InvalidFigi::InvalidMarker(t) => s.len() == 12 && prefix_ok(s) && !marker_ok(s) && t@ == s,
        InvalidFigi::InvalidBodyCharacter(t) => s.len() == 12 && prefix_ok(s) && marker_ok(s)
            && !body_ok(s) && t@ == s,
        InvalidFigi::InvalidCheckDigitFormat(t) => s.len() == 12 && prefix_ok(s) && marker_ok(s)
            && body_ok(s) && !check_digit_slot_ok(s) && t@ == s,
        InvalidFigi::InvalidChecksum(_) => false,
    }
}

/// The grammar stage's full contract: structural validity on success, and
/// the first violated structural rule on failure.
pub open spec fn grammar_result_matches(s: Seq<char>, r: Result<(), InvalidFigi>) -> bool {
    match r {
        Ok(_) => grammar_ok(s),
        Err(e) => grammar_error_matches(s, e),
    }
}

/// The parser's full contract: a success carries the input back unchanged
/// and only happens on the full ruleset; a failure names the first violated
/// rule and carries the input.
pub open spec fn parse_result_matches(s: Seq<char>, r: Result<Figi, InvalidFigi>) -> bool {
    match r {
        Ok(f) => valid_figi(s) && f@ == s,
        Err(InvalidFigi::InvalidChecksum(t)) => grammar_ok(s) && !checksum_ok(s) && t@ == s,
        Err(e) => grammar_error_matches(s, e),
    }
}

impl View for Figi {
    type V = Seq<char>;

    closed spec fn view(&self) -> Seq<char> {
        self.repr@
    }
}

impl Figi {
    /// A `Figi` always holds a rendering that satisfies the full ruleset.
    pub open spec fn wf(&self) -> bool {
        valid_figi(self@)
    }

    /// Lossless rendering: exactly the original twelve characters.
    pub fn to_string(&self) -> (r: String)
        ensures
            r@ == self@,
    {
        self.repr.clone()
    }

    /// Runs the whole ruleset over the identifier's rendering again. By
    /// construction this always returns true.
    pub fn is_valid(&self) -> (r: bool)
        ensures
            r == self.wf(),
    {
        let s = self.repr.as_str();
        match validate_grammar(s) {
            Err(_) => false,
            Ok(_) => {
                proof {
                    lemma_grammar_gives_classifiable(s@);
                }
                check_checksum(s)
            },
        }
    }

    /// Builds an identifier from twelve characters, subject to the same
    /// ruleset and errors as [`parse`].
    pub fn from_chars(s: &[char; 12]) -> (r: Result<Figi, InvalidFigi>)
        ensures
            parse_result_matches(s@, r),
    {
        let text = chars_to_string(s);
        parse(text.as_str())
    }
}

/// Under a valid grammar, every one of the first eleven positions carries a
/// classifiable character, as the checksum stage requires.
proof fn lemma_grammar_gives_classifiable(s: Seq<char>)
    requires
        grammar_ok(s),
    ensures
        forall|i: int| 0 <= i < 11 ==> conso_numeric(#[trigger] s[i]),
{
    assert forall|i: int| 0 <= i < 11 implies conso_numeric(#[trigger] s[i]) by {
        if i < 2 {
            assert(consonant(s[i]));
        } else if i == 2 {
            assert(s[2] == 'G');
        }
    }
}

/// Grammar Validator entry point: walks the five structural rules in order
/// and reports the first violated one.
pub fn validate_grammar(input: &str) -> (r: Result<(), InvalidFigi>)
    ensures
        grammar_result_matches(input@, r),
{
    let n = input.unicode_len();
    if n != 12 {
        return Err(InvalidFigi::InvalidLength(input.to_owned()));
    }
    if !check_prefix(input) {
        return Err(InvalidFigi::InvalidPrefix(input.to_owned()));
    }
    if !check_marker(input) {
        return Err(InvalidFigi::InvalidMarker(input.to_owned()));
    }
    if !check_body(input) {
        return Err(InvalidFigi::InvalidBodyCharacter(input.to_owned()));
    }
    if !check_digit_slot(input) {
        return Err(InvalidFigi::InvalidCheckDigitFormat(input.to_owned()));
    }
    Ok(())
}

/// The single entry point: validates the grammar, then the checksum, and on
/// full success returns the identifier, whose rendering is the input itself.
pub fn parse(input: &str) -> (r: Result<Figi, InvalidFigi>)
    ensures
        parse_result_matches(input@, r),
{
    match validate_grammar(input) {
        Err(e) => Err(e),
        Ok(_) => {
            proof {
                lemma_grammar_gives_classifiable(input@);
            }
            if check_checksum(input) {
                Ok(Figi { repr: input.to_owned() })
            } else {
                Err(InvalidFigi::InvalidChecksum(input.to_owned()))
            }
        },
    }
}

/// Relies on String::push: appends the one character to the end of the
/// string.
#[verifier::external_body]
fn push_char(s: &mut String, c: char)
    ensures
        final(s)@ == old(s)@.push(c),
{
    s.push(c);
}

/// Renders twelve characters as a string of the same characters.
fn chars_to_string(s: &[char; 12]) -> (r: String)
    ensures
        r@ == s@,
{
    let mut out = String::new();
    let mut i: usize = 0;
    while i < 12
        invariant
            i <= 12,
            out@ == s@.subrange(0, i as int),
        decreases 12 - i,
    {
        push_char(&mut out, s[i]);
        proof {
            assert(out@ =~= s@.subrange(0, i + 1));
        }
        i = i + 1;
    }
    proof {
        assert(out@ =~= s@);
    }
    out
}

} // verus!
