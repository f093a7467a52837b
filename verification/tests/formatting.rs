use loona::fmt::{push_decimal, push_signed_decimal};

fn dec(n: u64) -> String {
    let mut s = String::new();
    push_decimal(&mut s, n);
    s
}

fn sdec(i: i64) -> String {
    let mut s = String::new();
    push_signed_decimal(&mut s, i);
    s
}

#[test]
fn decimal_of_small_and_large_numbers() {
    assert_eq!(dec(0), "0");
    assert_eq!(dec(7), "7");
    assert_eq!(dec(10), "10");
    assert_eq!(dec(1234567890), "1234567890");
    assert_eq!(dec(u64::MAX), "18446744073709551615");
}

#[test]
fn decimal_appends_to_existing_text() {
    let mut s = String::from("id=");
    push_decimal(&mut s, 905);
    assert_eq!(s, "id=905");
}

#[test]
fn signed_decimal_of_negative_and_extreme_numbers() {
    assert_eq!(sdec(0), "0");
    assert_eq!(sdec(42), "42");
    assert_eq!(sdec(-5), "-5");
    assert_eq!(sdec(i64::MIN), "-9223372036854775808");
    assert_eq!(sdec(i64::MAX), "9223372036854775807");
}
