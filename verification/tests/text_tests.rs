use miasma::text::{chars_of, u64_to_decimal, write_signed_decimal};

#[test]
fn decimal_notation() {
    assert_eq!(u64_to_decimal(0), "0");
    assert_eq!(u64_to_decimal(9), "9");
    assert_eq!(u64_to_decimal(10), "10");
    assert_eq!(u64_to_decimal(1234567890), "1234567890");
    assert_eq!(u64_to_decimal(u64::MAX), u64::MAX.to_string());
}

#[test]
fn signed_decimal_notation() {
    for n in [0i64, -1, 42, i64::MIN, i64::MAX] {
        let mut s = String::from(">");
        write_signed_decimal(&mut s, n);
        assert_eq!(s, format!(">{n}"));
    }
}

#[test]
fn characters_in_order() {
    assert_eq!(chars_of("añb🌀"), vec!['a', 'ñ', 'b', '🌀']);
    assert!(chars_of("").is_empty());
}
