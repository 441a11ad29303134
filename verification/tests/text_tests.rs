use fuego::text::{joined, parse_u64, text_eq, u64_to_decimal};

#[test]
fn decimal_of_zero_is_one_digit() {
    assert_eq!(u64_to_decimal(0), "0");
}

#[test]
fn decimal_of_small_and_large_numbers() {
    assert_eq!(u64_to_decimal(7), "7");
    assert_eq!(u64_to_decimal(10), "10");
    assert_eq!(u64_to_decimal(1_000_000), "1000000");
    assert_eq!(u64_to_decimal(2_500_000), "2500000");
    assert_eq!(u64_to_decimal(u64::MAX), "18446744073709551615");
}

#[test]
fn decimal_agrees_with_std_formatting() {
    let mut n: u64 = 1;
    while n < u64::MAX / 7 {
        assert_eq!(u64_to_decimal(n), format!("{}", n));
        assert_eq!(u64_to_decimal(n - 1), format!("{}", n - 1));
        n *= 7;
    }
}

#[test]
fn parse_reads_plain_digits() {
    assert_eq!(parse_u64("0"), Some(0));
    assert_eq!(parse_u64("5000"), Some(5000));
    assert_eq!(parse_u64("1000000"), Some(1_000_000));
}

#[test]
fn parse_takes_a_plus_sign_and_leading_zeros() {
    assert_eq!(parse_u64("+5"), Some(5));
    assert_eq!(parse_u64("007"), Some(7));
    assert_eq!(parse_u64("+000"), Some(0));
}

#[test]
fn parse_reads_the_largest_value_and_refuses_the_next() {
    assert_eq!(parse_u64("18446744073709551615"), Some(u64::MAX));
    assert_eq!(parse_u64("18446744073709551616"), None);
    assert_eq!(parse_u64("99999999999999999999999"), None);
}

#[test]
fn parse_refuses_what_is_no_number() {
    assert_eq!(parse_u64(""), None);
    assert_eq!(parse_u64("+"), None);
    assert_eq!(parse_u64("-1"), None);
    assert_eq!(parse_u64(" 1"), None);
    assert_eq!(parse_u64("1 "), None);
    assert_eq!(parse_u64("1.5"), None);
    assert_eq!(parse_u64("1e3"), None);
    assert_eq!(parse_u64("abc"), None);
    assert_eq!(parse_u64("++1"), None);
    assert_eq!(parse_u64("1+"), None);
}

#[test]
fn parse_refuses_digits_of_other_scripts() {
    assert_eq!(parse_u64("\u{0663}"), None);
    assert_eq!(parse_u64("1\u{00e9}"), None);
}

#[test]
fn parse_agrees_with_std_parsing() {
    let samples = [
        "0", "1", "+1", "-0", "+", "", "12345678901234567890", "18446744073709551615",
        "18446744073709551616", "0000000000000000000000000000001", "12a", "a12", "١٢٣", "1_000",
    ];
    for text in samples {
        assert_eq!(parse_u64(text), text.parse::<u64>().ok(), "{}", text);
    }
}

#[test]
fn parse_undoes_decimal() {
    for n in [0u64, 1, 9, 10, 99, 100, 4_294_967_295, 4_294_967_296, u64::MAX] {
        assert_eq!(parse_u64(&u64_to_decimal(n)), Some(n));
    }
}

#[test]
fn text_eq_compares_characters() {
    assert!(text_eq("solana", "solana"));
    assert!(!text_eq("solana", "Solana"));
    assert!(!text_eq("solana", "solana "));
    assert!(text_eq("", ""));
}

#[test]
fn joined_sets_one_text_behind_the_other() {
    assert_eq!(joined("Failed: ", "timeout"), "Failed: timeout");
    assert_eq!(joined("", ""), "");
}
