use clipman::decimal::to_decimal;

#[test]
fn single_digits_are_single_characters() {
    let expected = ["0", "1", "2", "3", "4", "5", "6", "7", "8", "9"];
    for (n, numeral) in expected.iter().enumerate() {
        assert_eq!(to_decimal(n as u64), *numeral);
    }
}

#[test]
fn numerals_have_no_leading_zero() {
    assert_eq!(to_decimal(10), "10");
    assert_eq!(to_decimal(100), "100");
    assert_eq!(to_decimal(1005), "1005");
    assert_eq!(to_decimal(90210), "90210");
}

#[test]
fn the_largest_number_is_written_in_full() {
    assert_eq!(to_decimal(u64::MAX), "18446744073709551615");
    assert_eq!(to_decimal(u32::MAX as u64), "4294967295");
}

#[test]
fn numerals_agree_with_the_standard_library() {
    let mut n: u64 = 1;
    for _ in 0..19 {
        assert_eq!(to_decimal(n), n.to_string());
        assert_eq!(to_decimal(n - 1), (n - 1).to_string());
        assert_eq!(to_decimal(n + 7), (n + 7).to_string());
        n *= 10;
    }
}
