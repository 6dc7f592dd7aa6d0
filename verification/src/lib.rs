//! A validating parser and checksum verifier for FIGI identifiers
//! (Financial Instrument Global Identifiers).
//!
//! A FIGI is a twelve-character code: two restricted consonants that may not
//! form one of seven reserved pairs, the fixed marker letter `G`, eight
//! characters that are each a restricted consonant or a decimal digit, and a
//! final decimal check digit derived from a weighted modulo-10 sum over the
//! first eleven characters.

pub mod checksum;
pub mod classify;
pub mod figi;
pub mod grammar;
pub mod laws;

pub use figi::{parse, validate_grammar, Figi, InvalidFigi};
