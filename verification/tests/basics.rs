use gateway::practice::basics::{add, double, parse_number};

#[test]
fn test_double_2_value() {
    assert_eq!(double(2), 4);
}

#[test]
fn test_double_minus_2_should_be_4() {
    assert_eq!(double(-2), -4);
}

#[test]
fn test_double_0_should_be_0() {
    assert_eq!(double(0), 0);
}

#[test]
fn test_parse_number_42_should_succeed() {
    assert_eq!(parse_number("42"), Ok(42));
}

#[test]
fn test_parse_number_5_should_succeed() {
    assert_eq!(parse_number(" 5 "), Ok(5));
}

#[test]
fn test_parse_number_abc_should_fail() {
    assert_eq!(parse_number("abc"), Err("Parse error".to_string()));
}

#[test]
fn add_sums_two_numbers() {
    assert_eq!(add(2, 3), 5);
    assert_eq!(add(-7, 7), 0);
    assert_eq!(add(i32::MAX - 1, 1), i32::MAX);
}

#[test]
fn parse_number_reads_signs_and_limits() {
    assert_eq!(parse_number("-17"), Ok(-17));
    assert_eq!(parse_number("+17"), Ok(17));
    assert_eq!(parse_number("2147483647"), Ok(i32::MAX));
    assert_eq!(parse_number("-2147483648"), Ok(i32::MIN));
    assert_eq!(parse_number("2147483648"), Err("Parse error".to_string()));
    assert_eq!(parse_number("-2147483649"), Err("Parse error".to_string()));
    assert_eq!(parse_number(""), Err("Parse error".to_string()));
    assert_eq!(parse_number("   "), Err("Parse error".to_string()));
    assert_eq!(parse_number("-"), Err("Parse error".to_string()));
    assert_eq!(parse_number("1 2"), Err("Parse error".to_string()));
    assert_eq!(parse_number("\t\n 0012 \u{3000}"), Ok(12));
}
