use tx3_mcp::parse::{parse_bool, parse_i128};

#[test]
fn int_plain_digits() {
    assert_eq!(parse_i128("42"), Some(42));
    assert_eq!(parse_i128("0"), Some(0));
    assert_eq!(parse_i128("007"), Some(7));
}

#[test]
fn int_signs() {
    assert_eq!(parse_i128("+42"), Some(42));
    assert_eq!(parse_i128("-42"), Some(-42));
    assert_eq!(parse_i128("-0"), Some(0));
}

#[test]
fn int_extremes() {
    assert_eq!(
        parse_i128("170141183460469231731687303715884105727"),
        Some(i128::MAX)
    );
    assert_eq!(
        parse_i128("-170141183460469231731687303715884105728"),
        Some(i128::MIN)
    );
}

#[test]
fn int_overflow_is_rejected() {
    assert_eq!(parse_i128("170141183460469231731687303715884105728"), None);
    assert_eq!(parse_i128("-170141183460469231731687303715884105729"), None);
    assert_eq!(parse_i128("999999999999999999999999999999999999999999"), None);
}

#[test]
fn int_malformed_is_rejected() {
    assert_eq!(parse_i128(""), None);
    assert_eq!(parse_i128("+"), None);
    assert_eq!(parse_i128("-"), None);
    assert_eq!(parse_i128("abc"), None);
    assert_eq!(parse_i128("1.5"), None);
    assert_eq!(parse_i128(" 1"), None);
    assert_eq!(parse_i128("1 "), None);
    assert_eq!(parse_i128("--1"), None);
}

#[test]
fn int_agrees_with_std_parse() {
    for s in ["42", "-7", "+0", "abc", "", "99999999999999999999999999999999999999999"] {
        assert_eq!(parse_i128(s), s.parse::<i128>().ok(), "input {:?}", s);
    }
}

#[test]
fn bool_literals() {
    assert_eq!(parse_bool("true"), Some(true));
    assert_eq!(parse_bool("false"), Some(false));
}

#[test]
fn bool_malformed_is_rejected() {
    assert_eq!(parse_bool("notabool"), None);
    assert_eq!(parse_bool("True"), None);
    assert_eq!(parse_bool(""), None);
    assert_eq!(parse_bool("1"), None);
}
