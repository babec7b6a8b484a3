use clemens::decimal::{i128_to_string, parse_u64, u128_to_string};

#[test]
fn numbers_are_read() {
    assert_eq!(parse_u64("0"), Some(0));
    assert_eq!(parse_u64("1000000000"), Some(1_000_000_000));
    assert_eq!(parse_u64("+7"), Some(7));
    assert_eq!(parse_u64("007"), Some(7));
    assert_eq!(parse_u64("18446744073709551615"), Some(u64::MAX));
    assert_eq!(parse_u64("0000000000000000000000000000018446744073709551615"), Some(u64::MAX));
}

#[test]
fn other_texts_are_no_numbers() {
    for text in [
        "", "+", "-", "-1", "-0", "++1", "1+", " 1", "1 ", "1_000", "1.0", "x", "1x", "\u{661}",
        "18446744073709551616", "99999999999999999999", "184467440737095516150",
    ] {
        assert_eq!(parse_u64(text), None);
    }
}

#[test]
fn numbers_are_read_as_the_standard_library_reads_them() {
    for text in [
        "", "+", "-", "0", "+0", "-0", "12", "+12", "1+2", "00", "18446744073709551615",
        "+18446744073709551615", "18446744073709551616", "\u{ff11}", "1\u{301}", "a", "1e3",
    ] {
        assert_eq!(parse_u64(text), text.parse::<u64>().ok());
    }
}

#[test]
fn numbers_are_written() {
    assert_eq!(u128_to_string(0), "0");
    assert_eq!(u128_to_string(9), "9");
    assert_eq!(u128_to_string(10), "10");
    assert_eq!(u128_to_string(1203456789), "1203456789");
    assert_eq!(u128_to_string(u128::MAX), u128::MAX.to_string());
    assert_eq!(i128_to_string(0), "0");
    assert_eq!(i128_to_string(-1), "-1");
    assert_eq!(i128_to_string(-120), "-120");
    assert_eq!(i128_to_string(i128::MAX), i128::MAX.to_string());
    assert_eq!(i128_to_string(i128::MIN), i128::MIN.to_string());
}

#[test]
fn written_numbers_are_read_back() {
    for n in [0, 1, 9, 10, 99, 100, 101, 5000, 1 << 40, u64::MAX - 1, u64::MAX] {
        assert_eq!(parse_u64(&u128_to_string(n as u128)), Some(n));
    }
}

#[test]
fn numbers_are_told_apart() {
    let numbers = [i128::MIN, -11, -10, -1, 0, 1, 10, 11, i128::MAX];
    for i in numbers {
        for j in numbers {
            assert_eq!(i128_to_string(i) == i128_to_string(j), i == j);
        }
    }
}
