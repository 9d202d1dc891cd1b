use stream_alerts::decimal::{i32_to_string, parse_i32};

#[test]
fn numerals_are_read_as_std_reads_them() {
    let cases = [
        "0", "7", "-7", "+7", "007", "-0", "+0", "2147483647", "-2147483648", "2147483648",
        "-2147483649", "99999999999999999999999", "000000000000000000000000001", "", "-", "+",
        "--1", "+-1", "1-", " 1", "1 ", "1_000", "1.0", "1e3", "0x10", "１２", "٣", "a", "-a",
        "12a", "4294967296",
    ];
    for text in cases {
        assert_eq!(parse_i32(text), text.parse::<i32>().ok(), "{text:?}");
    }
}

#[test]
fn exact_values_at_the_edges() {
    assert_eq!(parse_i32("2147483647"), Some(i32::MAX));
    assert_eq!(parse_i32("-2147483648"), Some(i32::MIN));
    assert_eq!(parse_i32("2147483648"), None);
    assert_eq!(parse_i32("-2147483649"), None);
    assert_eq!(parse_i32("+42"), Some(42));
    assert_eq!(parse_i32("-0"), Some(0));
}

#[test]
fn numbers_are_written_as_std_writes_them() {
    for n in [0, 1, -1, 9, 10, -10, 99, 100, 12345, -12345, i32::MAX, i32::MIN, i32::MIN + 1] {
        assert_eq!(i32_to_string(n), n.to_string());
    }
    assert_eq!(i32_to_string(-2147483648), "-2147483648");
    assert_eq!(i32_to_string(150), "150");
}

#[test]
fn reading_what_was_written_gives_the_number_back() {
    let mut n: i32 = i32::MIN;
    loop {
        assert_eq!(parse_i32(&i32_to_string(n)), Some(n));
        match n.checked_add(16_777_213) {
            Some(next) => n = next,
            None => break,
        }
    }
    assert_eq!(parse_i32(&i32_to_string(i32::MAX)), Some(i32::MAX));
}
