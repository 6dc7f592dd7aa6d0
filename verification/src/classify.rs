//! Character Classifier: the restricted FIGI alphabet and the integer codes
//! used by the checksum.
//!
//! The alphabet holds the decimal digits and every uppercase Latin consonant
//! (including `Y`, excluding the vowels `A`, `E`, `I`, `O`, `U`). Each
//! character also carries a checksum code: a digit codes as its value, and a
//! consonant codes as its one-based position in the Latin alphabet plus nine,
//! which yields the deliberately non-contiguous range 11 to 35 with gaps at
//! the vowels. Classification is an exact match against this fixed ASCII set:
//! no case folding and no Unicode normalization.

use vstd::prelude::*;

verus! {

/// One of the 21 restricted consonants allowed in positions 1, 2 and 4 to 11.
pub open spec fn consonant(c: char) -> bool {
    ||| c == 'B'
    ||| c == 'C'
    ||| c == 'D'
    ||| c == 'F'
    ||| c == 'G'
    ||| c == 'H'
    ||| c == 'J'
    ||| c == 'K'
    ||| c == 'L'
    ||| c == 'M'
    ||| c == 'N'
    ||| c == 'P'
    ||| c == 'Q'
    ||| c == 'R'
    ||| c == 'S'
    ||| c == 'T'
    ||| c == 'V'
    ||| c == 'W'
    ||| c == 'X'
    ||| c == 'Y'
    ||| c == 'Z'
}

/// One of the ten decimal digit characters.
pub open spec fn digit(c: char) -> bool {
    ||| c == '0'
    ||| c == '1'
    ||| c == '2'
    ||| c == '3'
    ||| c == '4'
    ||| c == '5'
    ||| c == '6'
    ||| c == '7'
    ||| c == '8'
    ||| c == '9'
}

/// Any character of the restricted alphabet.
pub open spec fn conso_numeric(c: char) -> bool {
    consonant(c) || digit(c)
}

/// The checksum code of a classifiable character: digits map to their value,
/// consonants to the fixed non-contiguous values 11 to 35. Characters outside
/// the alphabet are given 0, but every use is guarded by [`conso_numeric`].
pub open spec fn char_code(c: char) -> nat {
    match c {
        '0' => 0,
        '1' => 1,
        '2' => 2,
        '3' => 3,
        '4' => 4,
        '5' => 5,
        '6' => 6,
        '7' => 7,
        '8' => 8,
        '9' => 9,
        'B' => 11,
        'C' => 12,
        'D' => 13,
        'F' => 15,
        'G' => 16,
        'H' => 17,
        'J' => 19,
        'K' => 20,
        'L' => 21,
        'M' => 22,
        'N' => 23,
        'P' => 25,
        'Q' => 26,
        'R' => 27,
        'S' => 28,
        'T' => 29,
        'V' => 31,
        'W' => 32,
        'X' => 33,
        'Y' => 34,
        'Z' => 35,
        _ => 0,
    }
}

/// Whether `c` is a restricted consonant.
pub fn is_consonant(c: char) -> (r: bool)
    ensures
        r == consonant(c),
{
    match c {
        'B' | 'C' | 'D' | 'F' | 'G' | 'H' | 'J' | 'K' | 'L' | 'M' | 'N' | 'P' | 'Q' | 'R' | 'S'
            | 'T' | 'V' | 'W' | 'X' | 'Y' | 'Z' => true,
        _ => false,
    }
}

/// Whether `c` is a decimal digit.
pub fn is_decimal_digit(c: char) -> (r: bool)
    ensures
        r == digit(c),
{
    match c {
        '0' | '1' | '2' | '3' | '4' | '5' | '6' | '7' | '8' | '9' => true,
        _ => false,
    }
}

/// Whether `c` is a restricted consonant or a decimal digit.
pub fn is_conso_numeric(c: char) -> (r: bool)
    ensures
        r == conso_numeric(c),
{
    is_consonant(c) || is_decimal_digit(c)
}

/// The checksum-code lookup table: `Some(code)` for the 31 characters of the
/// restricted alphabet, `None` for anything else.
pub fn character_code(c: char) -> (r: Option<u8>)
    ensures
        conso_numeric(c) ==> r == Some(char_code(c) as u8),
        !conso_numeric(c) ==> r is None,
        r matches Some(v) ==> v == char_code(c) && v <= 35,
{
    match c {
        '0' => Some(0),
        '1' => Some(1),
        '2' => Some(2),
        '3' => Some(3),
        '4' => Some(4),
        '5' => Some(5),
        '6' => Some(6),
        '7' => Some(7),
        '8' => Some(8),
        '9' => Some(9),
        'B' => Some(11),
        'C' => Some(12),
        'D' => Some(13),
        'F' => Some(15),
        'G' => Some(16),
        'H' => Some(17),
        'J' => Some(19),
        'K' => Some(20),
        'L' => Some(21),
        'M' => Some(22),
        'N' => Some(23),
        'P' => Some(25),
        'Q' => Some(26),
        'R' => Some(27),
        'S' => Some(28),
        'T' => Some(29),
        'V' => Some(31),
        'W' => Some(32),
        'X' => Some(33),
        'Y' => Some(34),
        'Z' => Some(35),
        _ => None,
    }
}

} // verus!
