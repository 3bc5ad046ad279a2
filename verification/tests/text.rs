use quirc::text::{push_decimal, push_signed_decimal};

#[test]
fn numbers_are_written_in_base_ten() {
    for n in [0u64, 1, 9, 10, 11, 99, 100, 101, 480, 640, 9999, 10000, 4294967295, u64::MAX] {
        let mut out = String::new();
        push_decimal(&mut out, n);
        assert_eq!(out, n.to_string());
    }
}

#[test]
fn numbers_are_appended_to_what_is_there() {
    let mut out = "len ".to_string();
    push_decimal(&mut out, 42);
    push_decimal(&mut out, 0);
    assert_eq!(out, "len 420");
}

#[test]
fn negative_numbers_get_a_minus_sign() {
    for i in [0i64, 1, -1, -9, -10, 25, -2147483648, 2147483647, i64::MIN, i64::MAX] {
        let mut out = "=".to_string();
        push_signed_decimal(&mut out, i);
        assert_eq!(out, format!("={}", i));
    }
}
