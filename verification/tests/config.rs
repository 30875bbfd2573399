use rays::config::{num_to_scale, string_to_scale, Scale};
use rays::errors::{Error, IntErrorKind};
use rays::text::parse_usize;

const PERMITTED: &str = "Only 0, 1, 2, 4, 8, 16, & 32 are permitted for scale.";

#[test]
fn every_scale_has_its_number() {
    assert_eq!(num_to_scale(0), Ok(Scale::FitScreen));
    assert_eq!(num_to_scale(1), Ok(Scale::X1));
    assert_eq!(num_to_scale(2), Ok(Scale::X2));
    assert_eq!(num_to_scale(4), Ok(Scale::X4));
    assert_eq!(num_to_scale(8), Ok(Scale::X8));
    assert_eq!(num_to_scale(16), Ok(Scale::X16));
    assert_eq!(num_to_scale(32), Ok(Scale::X32));
}

#[test]
fn other_numbers_are_no_scale() {
    for num in [3usize, 5, 6, 7, 9, 15, 17, 31, 33, 64, usize::MAX] {
        assert_eq!(num_to_scale(num), Err(Error::InvalidParam(num, PERMITTED.to_string())));
    }
}

#[test]
fn scale_from_text() {
    assert_eq!(string_to_scale("0"), Ok(Scale::FitScreen));
    assert_eq!(string_to_scale("1"), Ok(Scale::X1));
    assert_eq!(string_to_scale("+4"), Ok(Scale::X4));
    assert_eq!(string_to_scale("016"), Ok(Scale::X16));
    assert_eq!(string_to_scale("32"), Ok(Scale::X32));
}

#[test]
fn scale_from_text_that_is_no_scale() {
    assert_eq!(string_to_scale("3"), Err(Error::InvalidParam(3, PERMITTED.to_string())));
    assert_eq!(string_to_scale("64"), Err(Error::InvalidParam(64, PERMITTED.to_string())));
}

#[test]
fn scale_from_text_that_is_no_number() {
    assert_eq!(string_to_scale(""), Err(Error::ParseIntError(IntErrorKind::Empty)));
    assert_eq!(string_to_scale("x2"), Err(Error::ParseIntError(IntErrorKind::InvalidDigit)));
    assert_eq!(string_to_scale(" 2"), Err(Error::ParseIntError(IntErrorKind::InvalidDigit)));
    assert_eq!(string_to_scale("-2"), Err(Error::ParseIntError(IntErrorKind::InvalidDigit)));
    assert_eq!(
        string_to_scale("99999999999999999999999999"),
        Err(Error::ParseIntError(IntErrorKind::PosOverflow))
    );
}

#[test]
fn decimal_numbers_are_read() {
    assert_eq!(parse_usize("0"), Ok(0));
    assert_eq!(parse_usize("7"), Ok(7));
    assert_eq!(parse_usize("240"), Ok(240));
    assert_eq!(parse_usize("+320"), Ok(320));
    assert_eq!(parse_usize("000"), Ok(0));
    assert_eq!(parse_usize("0042"), Ok(42));
    let max = format!("{}", usize::MAX);
    assert_eq!(parse_usize(&max), Ok(usize::MAX));
}

#[test]
fn decimal_errors_by_kind() {
    assert_eq!(parse_usize(""), Err(IntErrorKind::Empty));
    assert_eq!(parse_usize("+"), Err(IntErrorKind::InvalidDigit));
    assert_eq!(parse_usize("-"), Err(IntErrorKind::InvalidDigit));
    assert_eq!(parse_usize("++1"), Err(IntErrorKind::InvalidDigit));
    assert_eq!(parse_usize("1_000"), Err(IntErrorKind::InvalidDigit));
    assert_eq!(parse_usize("12a"), Err(IntErrorKind::InvalidDigit));
    assert_eq!(parse_usize("1 "), Err(IntErrorKind::InvalidDigit));
    assert_eq!(parse_usize("\u{663}"), Err(IntErrorKind::InvalidDigit));
    let over = format!("{}0", usize::MAX);
    assert_eq!(parse_usize(&over), Err(IntErrorKind::PosOverflow));
    let next = format!("{}", usize::MAX as u128 + 1);
    assert_eq!(parse_usize(&next), Err(IntErrorKind::PosOverflow));
}

#[test]
fn decimal_reports_the_first_fault() {
    // The letter comes before the digit that would overflow, and after it.
    assert_eq!(parse_usize("9x9999999999999999999999999"), Err(IntErrorKind::InvalidDigit));
    assert_eq!(parse_usize("99999999999999999999999999x"), Err(IntErrorKind::PosOverflow));
}

#[test]
fn decimal_agrees_with_the_standard_parser() {
    for text in ["", "+", "0", "+0", "17", "0017", "1e3", "٣", "18446744073709551615", "18446744073709551616", "4294967296", " 1", "1\n"] {
        assert_eq!(parse_usize(text).ok(), text.parse::<usize>().ok());
    }
}
