use toml_integer::integer::Integer;

#[test]
fn decimal_always_succeeds() {
    for v in [0i64, 1, -1, 5, -5, i64::MAX, i64::MIN] {
        let i = Integer::new(v);
        assert_eq!(i.value(), v);
        assert!(i.is_dec());
    }
}

#[test]
fn nonnegative_constructors_succeed() {
    for v in [0i64, 1, 5, 255, 4096, i64::MAX] {
        assert_eq!(Integer::new_hex_upper(v).unwrap().value(), v);
        assert_eq!(Integer::new_hex_lower(v).unwrap().value(), v);
        assert_eq!(Integer::new_hex_unspecified(v).unwrap().value(), v);
        assert_eq!(Integer::new_oct(v).unwrap().value(), v);
        assert_eq!(Integer::new_bin(v).unwrap().value(), v);
    }
}

#[test]
fn negative_constructors_fail() {
    for v in [-1i64, -5, i64::MIN] {
        assert!(Integer::new_hex_upper(v).is_err());
        assert!(Integer::new_hex_lower(v).is_err());
        assert!(Integer::new_hex_unspecified(v).is_err());
        assert!(Integer::new_oct(v).is_err());
        assert!(Integer::new_bin(v).is_err());
    }
}

#[test]
fn error_message_is_fixed() {
    let e = Integer::new_oct(-1).unwrap_err();
    assert_eq!(e.message(), "invalid integer");
    let e = Integer::new_bin(-7).unwrap_err();
    assert_eq!(e.message(), "invalid integer");
    let e = Integer::new_hex_upper(i64::MIN).unwrap_err();
    assert_eq!(e.message(), "invalid integer");
}

#[test]
fn equality_distinguishes_notation() {
    assert_ne!(Integer::new(5), Integer::new_hex_upper(5).unwrap());
    assert_eq!(Integer::new(5).value(), 5);
    assert_eq!(Integer::new_hex_upper(5).unwrap().value(), 5);
    assert_ne!(
        Integer::new_hex_upper(255).unwrap(),
        Integer::new_hex_lower(255).unwrap()
    );
    assert_ne!(Integer::new_oct(5).unwrap(), Integer::new_bin(5).unwrap());
    assert_eq!(Integer::new(5), Integer::new(5));
    assert_eq!(
        Integer::new_hex_lower(255).unwrap(),
        Integer::new_hex_lower(255).unwrap()
    );
}

#[test]
fn rendering_decimal() {
    assert_eq!(Integer::new(-5).to_string(), "-5");
    assert_eq!(Integer::new(0).to_string(), "0");
    assert_eq!(Integer::new(42).to_string(), "42");
    assert_eq!(Integer::new(i64::MAX).to_string(), "9223372036854775807");
    assert_eq!(Integer::new(i64::MIN).to_string(), "-9223372036854775808");
}

#[test]
fn rendering_octal() {
    assert_eq!(Integer::new_oct(8).unwrap().to_string(), "0o10");
    assert_eq!(Integer::new_oct(0).unwrap().to_string(), "0o0");
    assert_eq!(Integer::new_oct(493).unwrap().to_string(), "0o755");
}

#[test]
fn rendering_binary() {
    assert_eq!(Integer::new_bin(5).unwrap().to_string(), "0b101");
    assert_eq!(Integer::new_bin(0).unwrap().to_string(), "0b0");
    assert_eq!(Integer::new_bin(1).unwrap().to_string(), "0b1");
}

#[test]
fn rendering_hexadecimal() {
    assert_eq!(Integer::new_hex_lower(255).unwrap().to_string(), "0xff");
    assert_eq!(Integer::new_hex_upper(255).unwrap().to_string(), "0xFF");
    assert_eq!(
        Integer::new_hex_unspecified(255).unwrap().to_string(),
        "0xFF"
    );
    assert_eq!(Integer::new_hex_upper(0).unwrap().to_string(), "0x0");
    assert_eq!(
        Integer::new_hex_lower(i64::MAX).unwrap().to_string(),
        "0x7fffffffffffffff"
    );
    assert_eq!(
        Integer::new_hex_upper(0xDEADBEEF).unwrap().to_string(),
        "0xDEADBEEF"
    );
}

#[test]
fn exactly_one_notation_predicate() {
    let instances = [
        Integer::new(-3),
        Integer::new_hex_upper(3).unwrap(),
        Integer::new_hex_lower(3).unwrap(),
        Integer::new_hex_unspecified(3).unwrap(),
        Integer::new_oct(3).unwrap(),
        Integer::new_bin(3).unwrap(),
    ];
    for i in instances {
        let count = [i.is_dec(), i.is_hex(), i.is_oct(), i.is_bin()]
            .iter()
            .filter(|b| **b)
            .count();
        assert_eq!(count, 1);
    }
}

#[test]
fn conversion_to_i64() {
    let i = Integer::new(-77);
    assert_eq!(i64::from(i), -77);
    assert_eq!(i64::from(&i), -77);
    let h = Integer::new_hex_lower(77).unwrap();
    assert_eq!(i64::from(h), 77);
    assert_eq!(i64::from(&h), 77);
}
