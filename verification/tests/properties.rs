//! Concrete exercises of the library's stated properties: round-tripping,
//! idempotence, the length boundary, reserved-prefix rejection, checksum
//! sensitivity, the documented scenarios, and exact values of the checksum
//! formulas and the classifier table.

use symbology::checksum::{check_checksum, compute_check_digit, sum_digits_sub_100};
use symbology::classify::{character_code, is_conso_numeric, is_consonant, is_decimal_digit};
use symbology::grammar::is_valid_prefix;
use symbology::{parse, Figi, InvalidFigi};

const KNOWN_VALID: &str = "BBG000BLNNH6";

#[test]
fn round_trip_of_parsed_identifier() {
    let figi = parse(KNOWN_VALID).unwrap();
    assert_eq!(figi.to_string(), KNOWN_VALID);
}

#[test]
fn parse_is_idempotent() {
    let first = parse(KNOWN_VALID);
    let rendered = first.as_ref().unwrap().to_string();
    let second = parse(&rendered);
    assert_eq!(first, second);
}

#[test]
fn length_boundary_eleven_and_thirteen() {
    let truncated = &KNOWN_VALID[..11];
    let extended = format!("{}6", KNOWN_VALID);
    assert!(matches!(parse(truncated), Err(InvalidFigi::InvalidLength(_))));
    assert!(matches!(
        parse(&extended),
        Err(InvalidFigi::InvalidLength(_))
    ));
}

#[test]
fn all_reserved_prefixes_rejected() {
    for pair in ["BS", "BM", "GG", "GB", "GH", "KY", "VG"] {
        let candidate = format!("{}{}", pair, &KNOWN_VALID[2..]);
        assert!(
            matches!(parse(&candidate), Err(InvalidFigi::InvalidPrefix(_))),
            "Reserved prefix should be rejected: {}",
            candidate
        );
    }
}

#[test]
fn checksum_detects_every_final_digit_flip() {
    for d in ['0', '1', '2', '3', '4', '5', '7', '8', '9'] {
        let mut candidate: String = KNOWN_VALID[..11].to_string();
        candidate.push(d);
        assert!(
            matches!(parse(&candidate), Err(InvalidFigi::InvalidChecksum(_))),
            "Flipped check digit should be rejected: {}",
            candidate
        );
    }
}

#[test]
fn documented_scenarios() {
    assert_eq!(parse(KNOWN_VALID).unwrap().to_string(), KNOWN_VALID);
    assert!(matches!(
        parse("BSG000BLNNH6"),
        Err(InvalidFigi::InvalidPrefix(_))
    ));
    assert!(matches!(
        parse("BBX000BLNNH6"),
        Err(InvalidFigi::InvalidMarker(_))
    ));
    assert!(matches!(
        parse("BBG000BLNNHH"),
        Err(InvalidFigi::InvalidCheckDigitFormat(_))
    ));
    assert!(matches!(
        parse("BBG000BLNNH6EXTRA"),
        Err(InvalidFigi::InvalidLength(_))
    ));
    assert!(matches!(parse(""), Err(InvalidFigi::InvalidLength(_))));
}

#[test]
fn body_character_error_variant() {
    assert!(matches!(
        parse("BBG0A0BLNNH6"),
        Err(InvalidFigi::InvalidBodyCharacter(_))
    ));
}

#[test]
fn errors_carry_the_offending_input() {
    match parse("BSG000BLNNH6") {
        Err(InvalidFigi::InvalidPrefix(t)) => assert_eq!(t, "BSG000BLNNH6"),
        other => panic!("expected an InvalidPrefix error, got {:?}", other),
    }
    match parse("short") {
        Err(InvalidFigi::InvalidLength(t)) => assert_eq!(t, "short"),
        other => panic!("expected an InvalidLength error, got {:?}", other),
    }
}

#[test]
fn expected_check_digit_of_known_vectors() {
    assert_eq!(compute_check_digit(KNOWN_VALID), 6);
    assert_eq!(compute_check_digit("BBG000B9XVV8"), 8);
    assert_eq!(compute_check_digit("BBG000BD8ZK0"), 0);
    assert!(check_checksum(KNOWN_VALID));
    assert!(!check_checksum("BBG000BLNNH5"));
}

#[test]
fn digit_sum_reduction_values() {
    assert_eq!(sum_digits_sub_100(0), 0);
    assert_eq!(sum_digits_sub_100(9), 9);
    assert_eq!(sum_digits_sub_100(34), 7);
    assert_eq!(sum_digits_sub_100(46), 10);
    assert_eq!(sum_digits_sub_100(70), 7);
}

#[test]
fn classifier_table_values() {
    assert_eq!(character_code('0'), Some(0));
    assert_eq!(character_code('9'), Some(9));
    assert_eq!(character_code('B'), Some(11));
    assert_eq!(character_code('G'), Some(16));
    assert_eq!(character_code('N'), Some(23));
    assert_eq!(character_code('Z'), Some(35));
    assert_eq!(character_code('A'), None);
    assert_eq!(character_code('a'), None);
    assert_eq!(character_code('?'), None);
}

#[test]
fn classifier_classes() {
    assert!(is_consonant('Y'));
    assert!(is_consonant('B'));
    assert!(!is_consonant('A'));
    assert!(!is_consonant('b'));
    assert!(is_decimal_digit('0'));
    assert!(!is_decimal_digit('x'));
    assert!(is_conso_numeric('7'));
    assert!(is_conso_numeric('Q'));
    assert!(!is_conso_numeric('E'));
    assert!(!is_valid_prefix('B', 'S'));
    assert!(!is_valid_prefix('V', 'G'));
    assert!(is_valid_prefix('B', 'B'));
}

#[test]
fn from_chars_builds_the_same_identifier() {
    let chars = ['B', 'B', 'G', '0', '0', '0', 'B', 'L', 'N', 'N', 'H', '6'];
    let figi = Figi::from_chars(&chars).unwrap();
    assert_eq!(figi.to_string(), KNOWN_VALID);
    assert_eq!(figi, parse(KNOWN_VALID).unwrap());

    let bad = ['B', 'B', 'G', '0', '0', '0', 'B', 'L', 'N', 'N', 'H', '5'];
    assert!(matches!(
        Figi::from_chars(&bad),
        Err(InvalidFigi::InvalidChecksum(_))
    ));
}
