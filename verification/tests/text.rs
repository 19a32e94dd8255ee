use osd::text::{
    chars_of, push_chars, push_decimal, push_integer, push_text, render_decimal, string_of,
};

#[test]
fn decimal_has_no_leading_zeros() {
    assert_eq!(render_decimal(0), "0");
    assert_eq!(render_decimal(7), "7");
    assert_eq!(render_decimal(10), "10");
    assert_eq!(render_decimal(1234567890), "1234567890");
    assert_eq!(render_decimal(u64::MAX), "18446744073709551615");
}

#[test]
fn decimal_is_appended() {
    let mut out = String::from("n=");
    push_decimal(&mut out, 42);
    assert_eq!(out, "n=42");
}

#[test]
fn negative_integer_has_a_minus_sign() {
    let mut out = String::new();
    push_integer(&mut out, -5);
    push_integer(&mut out, 0);
    push_integer(&mut out, 17);
    assert_eq!(out, "-5017");
}

#[test]
fn integers_at_both_ends_of_the_range() {
    let mut low = String::new();
    push_integer(&mut low, i64::MIN);
    assert_eq!(low, "-9223372036854775808");
    let mut high = String::new();
    push_integer(&mut high, i64::MAX);
    assert_eq!(high, "9223372036854775807");
}

#[test]
fn text_is_taken_apart_and_put_together() {
    let chars = chars_of("héllo");
    assert_eq!(chars, vec!['h', 'é', 'l', 'l', 'o']);
    assert_eq!(string_of(&chars, 1, 4), "éll");
    assert_eq!(string_of(&chars, 2, 2), "");
    let mut out = String::from("x");
    push_chars(&mut out, &chars, 0, 2);
    push_text(&mut out, "!");
    assert_eq!(out, "xhé!");
}
