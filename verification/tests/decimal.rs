use heartbeat_pusher::decimal::{parse_u64, to_decimal};

#[test]
fn parse_reads_plain_numbers() {
    assert_eq!(parse_u64("0"), Some(0));
    assert_eq!(parse_u64("5"), Some(5));
    assert_eq!(parse_u64("60"), Some(60));
    assert_eq!(parse_u64("12345"), Some(12345));
}

#[test]
fn parse_takes_one_leading_plus() {
    assert_eq!(parse_u64("+5"), Some(5));
    assert_eq!(parse_u64("+0"), Some(0));
    assert_eq!(parse_u64("++5"), None);
    assert_eq!(parse_u64("+"), None);
    assert_eq!(parse_u64("5+"), None);
}

#[test]
fn parse_takes_leading_zeros() {
    assert_eq!(parse_u64("007"), Some(7));
    assert_eq!(parse_u64("0000000000000000000000000000001"), Some(1));
}

#[test]
fn parse_refuses_the_empty_text() {
    assert_eq!(parse_u64(""), None);
}

#[test]
fn parse_refuses_a_minus_sign() {
    assert_eq!(parse_u64("-5"), None);
    assert_eq!(parse_u64("-0"), None);
    assert_eq!(parse_u64("-"), None);
}

#[test]
fn parse_refuses_letters_blanks_and_marks() {
    assert_eq!(parse_u64("abc"), None);
    assert_eq!(parse_u64("12a"), None);
    assert_eq!(parse_u64("a12"), None);
    assert_eq!(parse_u64(" 5"), None);
    assert_eq!(parse_u64("5 "), None);
    assert_eq!(parse_u64("5\n"), None);
    assert_eq!(parse_u64("1_000"), None);
    assert_eq!(parse_u64("5.0"), None);
    assert_eq!(parse_u64("0x10"), None);
}

#[test]
fn parse_refuses_digits_outside_ascii() {
    assert_eq!(parse_u64("\u{ff15}"), None);
    assert_eq!(parse_u64("5\u{e9}"), None);
    assert_eq!(parse_u64("\u{661}\u{662}"), None);
}

#[test]
fn parse_reads_up_to_the_largest_u64() {
    assert_eq!(parse_u64("18446744073709551615"), Some(u64::MAX));
    assert_eq!(parse_u64("+18446744073709551615"), Some(u64::MAX));
    assert_eq!(parse_u64("18446744073709551614"), Some(u64::MAX - 1));
}

#[test]
fn parse_refuses_what_does_not_fit() {
    assert_eq!(parse_u64("18446744073709551616"), None);
    assert_eq!(parse_u64("18446744073709551620"), None);
    assert_eq!(parse_u64("99999999999999999999"), None);
    assert_eq!(parse_u64("184467440737095516150"), None);
    assert_eq!(parse_u64("18446744073709551616x"), None);
}

#[test]
fn parse_agrees_with_the_standard_library() {
    let samples = vec![
        "", "0", "1", "9", "10", "60", "+60", "-60", "060", " 60", "60 ", "6 0", "abc", "+", "-",
        "+-1", "-+1", "++1", "1e3", "1.5", "18446744073709551615", "18446744073709551616",
        "00018446744073709551615", "4294967296", "\u{ff11}", "1\u{0}", "\t1", "\u{661}\u{662}\u{663}",
    ];
    for text in samples {
        assert_eq!(parse_u64(text), text.parse::<u64>().ok());
    }
}

#[test]
fn to_decimal_writes_the_shortest_form() {
    assert_eq!(to_decimal(0), "0");
    assert_eq!(to_decimal(7), "7");
    assert_eq!(to_decimal(9), "9");
    assert_eq!(to_decimal(10), "10");
    assert_eq!(to_decimal(60), "60");
    assert_eq!(to_decimal(101), "101");
    assert_eq!(to_decimal(12345), "12345");
    assert_eq!(to_decimal(u64::MAX), "18446744073709551615");
}

#[test]
fn to_decimal_agrees_with_the_standard_library() {
    let mut n: u64 = 1;
    for _ in 0..64 {
        assert_eq!(to_decimal(n), format!("{}", n));
        assert_eq!(to_decimal(n - 1), format!("{}", n - 1));
        n = n.wrapping_mul(2);
    }
}

#[test]
fn parse_undoes_to_decimal() {
    let samples = vec![0u64, 1, 9, 10, 59, 60, 61, 99, 100, 999, 1000, 65535, 4294967296, u64::MAX];
    for n in samples {
        assert_eq!(parse_u64(&to_decimal(n)), Some(n));
    }
}
