use wumpus::text::decimal_text;
use wumpus::token::parse_number;

#[test]
fn decimal_text_writes_numbers() {
    assert_eq!(decimal_text(0), "0");
    assert_eq!(decimal_text(7), "7");
    assert_eq!(decimal_text(10), "10");
    assert_eq!(decimal_text(19), "19");
    assert_eq!(decimal_text(1203), "1203");
    assert_eq!(decimal_text(usize::MAX), usize::MAX.to_string());
}

#[test]
fn parse_number_reads_digits() {
    assert_eq!(parse_number("0"), Some(0));
    assert_eq!(parse_number("4"), Some(4));
    assert_eq!(parse_number("19"), Some(19));
    assert_eq!(parse_number("+19"), Some(19));
    assert_eq!(parse_number("0019"), Some(19));
    assert_eq!(parse_number("123456789"), Some(123456789));
}

#[test]
fn parse_number_reads_back_what_decimal_text_writes() {
    for number in (0..5000usize).chain([usize::MAX - 1, usize::MAX]) {
        assert_eq!(parse_number(&decimal_text(number)), Some(number));
    }
}

#[test]
fn parse_number_saturates() {
    let max = usize::MAX.to_string();
    assert_eq!(parse_number(&max), Some(usize::MAX));
    assert_eq!(parse_number(&format!("{}0", max)), Some(usize::MAX));
    assert_eq!(parse_number(&format!("{}", usize::MAX as u128 + 1)), Some(usize::MAX));
    assert_eq!(parse_number(&format!("{}", usize::MAX as u128 - 1)), Some(usize::MAX - 1));
    assert_eq!(parse_number(&"9".repeat(400)), Some(usize::MAX));
}

#[test]
fn parse_number_refuses_what_is_no_number() {
    for token in ["", "+", "++1", "-1", "1-", "1+", " 1", "1 ", "a", "1a", "a1", "1.5", "1_000", "１"] {
        assert_eq!(parse_number(token), None, "{:?}", token);
    }
}
