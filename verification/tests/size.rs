use quirc::{parse_size, IntError, InvalidInput, ParseError};
use std::num::IntErrorKind;

fn out_of_range() -> Result<(u32, u32), ParseError> {
    Err(ParseError::Io(InvalidInput::OutOfRange))
}

fn expected_size() -> Result<(u32, u32), ParseError> {
    Err(ParseError::Io(InvalidInput::ExpectedSize))
}

fn parse_failure(kind: IntError) -> Result<(u32, u32), ParseError> {
    Err(ParseError::Parse(kind))
}

/// What the standard parser makes of a numeral, in the library's own terms.
fn std_reading(numeral: &str) -> Result<u32, IntError> {
    match numeral.parse::<u32>() {
        Ok(v) => Ok(v),
        Err(e) => match e.kind() {
            IntErrorKind::Empty => Err(IntError::Empty),
            IntErrorKind::InvalidDigit => Err(IntError::InvalidDigit),
            IntErrorKind::PosOverflow => Err(IntError::PosOverflow),
            _ => unreachable!(),
        },
    }
}

#[test]
fn parses_a_plain_size() {
    assert_eq!(parse_size("640x480"), Ok((640, 480)));
}

#[test]
fn rejects_a_zero_width() {
    assert_eq!(parse_size("0x480"), out_of_range());
}

#[test]
fn rejects_a_zero_height() {
    assert_eq!(parse_size("640x0"), out_of_range());
}

#[test]
fn rejects_a_width_of_ten_thousand() {
    assert_eq!(parse_size("10000x480"), out_of_range());
}

#[test]
fn rejects_a_height_of_ten_thousand() {
    assert_eq!(parse_size("640x10000"), out_of_range());
}

#[test]
fn rejects_a_size_without_separator() {
    assert_eq!(parse_size("640"), expected_size());
}

#[test]
fn rejects_letters_for_numbers() {
    assert_eq!(parse_size("abcxdef"), parse_failure(IntError::InvalidDigit));
}

#[test]
fn accepts_the_limits_of_the_range() {
    assert_eq!(parse_size("1x1"), Ok((1, 1)));
    assert_eq!(parse_size("9999x9999"), Ok((9999, 9999)));
    assert_eq!(parse_size("1x9999"), Ok((1, 9999)));
}

#[test]
fn accepts_a_plus_sign_and_leading_zeros() {
    assert_eq!(parse_size("+640x+480"), Ok((640, 480)));
    assert_eq!(parse_size("0640x00480"), Ok((640, 480)));
    assert_eq!(parse_size("+000000000000000000001x2"), Ok((1, 2)));
}

#[test]
fn rejects_more_or_less_than_one_separator() {
    assert_eq!(parse_size(""), expected_size());
    assert_eq!(parse_size("640x480x3"), expected_size());
    assert_eq!(parse_size("xx"), expected_size());
    assert_eq!(parse_size("640X480"), expected_size());
    assert_eq!(parse_size("640*480"), expected_size());
}

#[test]
fn reports_a_missing_numeral_as_empty() {
    assert_eq!(parse_size("x"), parse_failure(IntError::Empty));
    assert_eq!(parse_size("640x"), parse_failure(IntError::Empty));
    assert_eq!(parse_size("x480"), parse_failure(IntError::Empty));
}

#[test]
fn reports_the_width_before_the_height() {
    assert_eq!(parse_size("ax"), parse_failure(IntError::InvalidDigit));
    assert_eq!(parse_size("99999999999xa"), parse_failure(IntError::PosOverflow));
    assert_eq!(parse_size("0xa"), parse_failure(IntError::InvalidDigit));
}

#[test]
fn rejects_signs_blanks_and_other_digits() {
    assert_eq!(parse_size("-1x5"), parse_failure(IntError::InvalidDigit));
    assert_eq!(parse_size("+x5"), parse_failure(IntError::InvalidDigit));
    assert_eq!(parse_size("++1x5"), parse_failure(IntError::InvalidDigit));
    assert_eq!(parse_size(" 640x480"), parse_failure(IntError::InvalidDigit));
    assert_eq!(parse_size("640 x480"), parse_failure(IntError::InvalidDigit));
    assert_eq!(parse_size("640x480 "), parse_failure(IntError::InvalidDigit));
    assert_eq!(parse_size("6_40x480"), parse_failure(IntError::InvalidDigit));
    assert_eq!(parse_size("\u{ff16}\u{ff14}\u{ff10}x480"), parse_failure(IntError::InvalidDigit));
    assert_eq!(parse_size("640x4\u{e9}0"), parse_failure(IntError::InvalidDigit));
}

#[test]
fn tells_too_large_from_out_of_range() {
    assert_eq!(parse_size("4294967295x1"), out_of_range());
    assert_eq!(parse_size("4294967296x1"), parse_failure(IntError::PosOverflow));
    assert_eq!(parse_size("1x4294967296"), parse_failure(IntError::PosOverflow));
    assert_eq!(parse_size("1x42949672950"), parse_failure(IntError::PosOverflow));
}

#[test]
fn reports_whichever_fault_of_a_numeral_comes_first() {
    assert_eq!(parse_size("99999999999ax1"), parse_failure(IntError::PosOverflow));
    assert_eq!(parse_size("9a9999999999x1"), parse_failure(IntError::InvalidDigit));
    assert_eq!(parse_size("4294967295ax1"), parse_failure(IntError::InvalidDigit));
}

#[test]
fn reads_numerals_as_the_standard_parser_does() {
    let numerals = [
        "", "+", "-", "0", "1", "9999", "10000", "+7", "-7", "++7", "+-7", "007", "4294967295",
        "4294967296", "42949672950", "99999999999999999999", "12a", "a12", "1 2", " 12", "12 ",
        "1_000", "0x10", "99999999999a", "9a99999999999", "+0", "+4294967296", "\u{663}",
        "12\u{a0}", "1e3", "1.5",
    ];
    for numeral in numerals {
        if numeral.contains('x') {
            continue;
        }
        let expected = match std_reading(numeral) {
            Ok(v) if (1..=9999).contains(&v) => Ok((v, 1)),
            Ok(_) => out_of_range(),
            Err(kind) => parse_failure(kind),
        };
        assert_eq!(parse_size(&format!("{}x1", numeral)), expected, "width {:?}", numeral);
        let expected = match std_reading(numeral) {
            Ok(v) if (1..=9999).contains(&v) => Ok((1, v)),
            Ok(_) => out_of_range(),
            Err(kind) => parse_failure(kind),
        };
        assert_eq!(parse_size(&format!("1x{}", numeral)), expected, "height {:?}", numeral);
    }
}

#[test]
fn reads_back_every_size_in_range() {
    for w in [1u32, 2, 9, 10, 99, 100, 640, 999, 1000, 1920, 9998, 9999] {
        for h in [1u32, 7, 480, 1080, 9999] {
            assert_eq!(parse_size(&format!("{}x{}", w, h)), Ok((w, h)));
        }
    }
    for w in [0u32, 10000, 10001, 65536, 4294967295] {
        assert_eq!(parse_size(&format!("{}x480", w)), out_of_range());
        assert_eq!(parse_size(&format!("640x{}", w)), out_of_range());
    }
}

#[test]
fn words_each_error_as_the_user_sees_it() {
    assert_eq!(ParseError::Io(InvalidInput::ExpectedSize).message(), "Expected WxH");
    assert_eq!(
        ParseError::Io(InvalidInput::OutOfRange).message(),
        "Expected width and height to be 1-9999"
    );
    assert_eq!(
        ParseError::Parse(IntError::Empty).message(),
        "cannot parse integer from empty string"
    );
    assert_eq!(
        ParseError::Parse(IntError::InvalidDigit).message(),
        "invalid digit found in string"
    );
    assert_eq!(
        ParseError::Parse(IntError::PosOverflow).message(),
        "number too large to fit in target type"
    );
}

#[test]
fn words_numeral_errors_as_the_standard_parser_does() {
    assert_eq!(IntError::Empty.message(), "".parse::<u32>().unwrap_err().to_string());
    assert_eq!(IntError::InvalidDigit.message(), "a".parse::<u32>().unwrap_err().to_string());
    assert_eq!(
        IntError::PosOverflow.message(),
        "4294967296".parse::<u32>().unwrap_err().to_string()
    );
}
