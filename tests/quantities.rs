use vouwbank::decimal::{format_count, format_quantity, parse_decimal};
use vouwbank::validation::{check_field, Field, ValidationError};

#[test]
fn parses_plain_and_fractional_numbers() {
    assert_eq!(parse_decimal("300"), Some(300_000));
    assert_eq!(parse_decimal("300.0"), Some(300_000));
    assert_eq!(parse_decimal("2.5"), Some(2_500));
    assert_eq!(parse_decimal("0.1"), Some(100));
    assert_eq!(parse_decimal(".5"), Some(500));
    assert_eq!(parse_decimal("5."), Some(5_000));
    assert_eq!(parse_decimal("+7"), Some(7_000));
    assert_eq!(parse_decimal("-12.125"), Some(-12_125));
}

#[test]
fn refuses_text_that_is_no_number() {
    assert_eq!(parse_decimal(""), None);
    assert_eq!(parse_decimal("."), None);
    assert_eq!(parse_decimal("-"), None);
    assert_eq!(parse_decimal("abc"), None);
    assert_eq!(parse_decimal("1.2.3"), None);
    assert_eq!(parse_decimal("12a"), None);
    assert_eq!(parse_decimal(" 12"), None);
    assert_eq!(parse_decimal("1.2345"), None);
}

#[test]
fn holds_huge_whole_parts_at_the_cap() {
    assert_eq!(parse_decimal("99999999999999999999999"), Some(1_000_000_000_000_000));
    assert_eq!(parse_decimal("-99999999999999999999999.5"), Some(-1_000_000_000_000_500));
}

#[test]
fn formats_quantities_without_trailing_zeros() {
    assert_eq!(format_quantity(300_000), "300");
    assert_eq!(format_quantity(2_500), "2.5");
    assert_eq!(format_quantity(100), "0.1");
    assert_eq!(format_quantity(1_234), "1.234");
    assert_eq!(format_quantity(1_230), "1.23");
    assert_eq!(format_quantity(0), "0");
    assert_eq!(format_quantity(-5_000), "-5");
    assert_eq!(format_count(0), "0");
    assert_eq!(format_count(1207), "1207");
}

#[test]
fn formatted_quantities_parse_back() {
    for v in [0i64, 1, 99, 100, 2_500, 300_000, 10_000_000, -1_250] {
        assert_eq!(parse_decimal(&format_quantity(v)), Some(v));
    }
}

#[test]
fn check_field_reports_parse_and_range_errors() {
    let r = check_field(Field::Length, &"abc".to_string(), 100, 10_000_000, false);
    match r {
        Err(ValidationError::InvalidNumber { field, raw_text }) => {
            assert_eq!(field, Field::Length);
            assert_eq!(raw_text, "abc");
        }
        _ => panic!("expected an invalid number"),
    }
    let r = check_field(Field::Width, &"0.05".to_string(), 100, 10_000_000, false);
    match r {
        Err(ValidationError::OutOfRange { field, value, min, max }) => {
            assert_eq!(field, Field::Width);
            assert_eq!((value, min, max), (50, 100, 10_000_000));
        }
        _ => panic!("expected out of range"),
    }
    assert_eq!(check_field(Field::Width, &"0.1".to_string(), 100, 10_000_000, false).unwrap(), 100);
    assert_eq!(check_field(Field::Width, &"10000".to_string(), 100, 10_000_000, false).unwrap(), 10_000_000);
    assert!(check_field(Field::Position, &"0".to_string(), 0, 300_000, true).is_err());
    assert!(check_field(Field::Position, &"300".to_string(), 0, 300_000, true).is_err());
}

#[test]
fn validation_messages_name_the_field() {
    let e = ValidationError::InvalidNumber { field: Field::Thickness, raw_text: "x1".to_string() };
    assert_eq!(e.message(), "Invalid Thickness: 'x1' is not a valid number.");
    let e = ValidationError::OutOfRange { field: Field::Radius, value: 600_000, min: 0, max: 500_000 };
    assert_eq!(e.message(), "Bend radius 600 is out of range (0-500).");
}
