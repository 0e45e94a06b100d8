use fleet_telemetry::decimal::{decimal_len, push_decimal, push_zero_padded_decimal};

#[test]
fn decimal_rendering() {
    for (n, s) in [(0u64, "0"), (9, "9"), (10, "10"), (1234567890, "1234567890"), (u64::MAX, "18446744073709551615")] {
        let mut out = String::from("x");
        push_decimal(&mut out, n);
        assert_eq!(out, format!("x{}", s));
        assert_eq!(decimal_len(n), s.len());
    }
}

#[test]
fn zero_padding() {
    let mut out = String::new();
    push_zero_padded_decimal(&mut out, 42, 5);
    assert_eq!(out, "00042");
    let mut out = String::new();
    push_zero_padded_decimal(&mut out, 123456, 3);
    assert_eq!(out, "123456");
    let mut out = String::new();
    push_zero_padded_decimal(&mut out, 0, 0);
    assert_eq!(out, "0");
}
