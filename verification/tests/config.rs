use openzt::config::{first, first_int_or_zero, parse_i32, values};

fn strings(v: &[&str]) -> Vec<String> {
    v.iter().map(|s| s.to_string()).collect()
}

#[test]
fn blank_values_are_dropped() {
    assert_eq!(values(&strings(&["", " a ", "  ", "b"])), strings(&[" a ", "b"]));
    assert_eq!(first(&strings(&["\t", "x", "y"])), Some("x".to_string()));
    assert_eq!(first(&strings(&[" "])), None);
}

#[test]
fn integers_parse_strictly() {
    assert_eq!(parse_i32("42"), Some(42));
    assert_eq!(parse_i32("+7"), Some(7));
    assert_eq!(parse_i32("-2147483648"), Some(i32::MIN));
    assert_eq!(parse_i32("2147483647"), Some(i32::MAX));
    assert_eq!(parse_i32("2147483648"), None);
    assert_eq!(parse_i32("-2147483649"), None);
    assert_eq!(parse_i32("99999999999999999999"), None);
    assert_eq!(parse_i32("007"), Some(7));
    assert_eq!(parse_i32(""), None);
    assert_eq!(parse_i32("-"), None);
    assert_eq!(parse_i32(" 1"), None);
    assert_eq!(parse_i32("1x"), None);
    for s in ["0", "-0", "123", "-45", "+", "12a", "2147483647", "2147483648"] {
        assert_eq!(parse_i32(s), s.parse::<i32>().ok(), "{}", s);
    }
}

#[test]
fn first_integer_or_zero() {
    assert_eq!(first_int_or_zero(&strings(&["", "12", "13"])), 12);
    assert_eq!(first_int_or_zero(&strings(&["abc", "13"])), 0);
    assert_eq!(first_int_or_zero(&vec![]), 0);
}
