use zerotier_service::text::{hex_padded, i64_text, position_text, u64_text};

#[test]
fn decimal_of_signed_values() {
    assert_eq!(i64_text(0), "0");
    assert_eq!(i64_text(1234567), "1234567");
    assert_eq!(i64_text(-42), "-42");
    assert_eq!(i64_text(i64::MIN), i64::MIN.to_string());
    assert_eq!(i64_text(i64::MAX), i64::MAX.to_string());
}

#[test]
fn decimal_of_unsigned_values() {
    assert_eq!(u64_text(0), "0");
    assert_eq!(u64_text(10), "10");
    assert_eq!(u64_text(u64::MAX), u64::MAX.to_string());
}

#[test]
fn position_is_one_past_the_count() {
    assert_eq!(position_text(0), "1");
    assert_eq!(position_text(9), "10");
    assert_eq!(position_text(usize::MAX), (usize::MAX as u128 + 1).to_string());
}

#[test]
fn hex_is_padded_to_the_width() {
    assert_eq!(hex_padded(0, 8), "00000000");
    assert_eq!(hex_padded(0xab, 8), "000000ab");
    assert_eq!(hex_padded(0x1234_5678_9abc, 8), "123456789abc");
    assert_eq!(hex_padded(u64::MAX, 8), format!("{:0>8x}", u64::MAX));
    assert_eq!(hex_padded(255, 0), "ff");
}

#[test]
fn renderings_read_back_as_the_same_numbers() {
    for v in [0i64, 7, 10, 99, 100, -1, -100, 123456789, i64::MIN, i64::MAX] {
        assert_eq!(i64_text(v).parse::<i64>().unwrap(), v);
    }
    for v in [0u64, 1, 15, 16, 255, 4096, 0xdead_beef, u64::MAX] {
        let h = hex_padded(v, 8);
        assert!(h.len() >= 8);
        assert_eq!(u64::from_str_radix(&h, 16).unwrap(), v);
        assert_eq!(u64_text(v).parse::<u64>().unwrap(), v);
    }
}
