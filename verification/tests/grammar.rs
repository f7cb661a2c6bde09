use scale_cli::grammar::{append_decimal, append_numeral, digit_of, parse_register};

#[test]
fn digits_decode_to_their_values() {
    for (value, c) in ('0'..='9').enumerate() {
        assert_eq!(digit_of(c), Some(value as u8));
    }
    for c in ['/', ':', 'a', '-', ' ', '\u{0663}', '\u{ff11}'] {
        assert_eq!(digit_of(c), None);
    }
}

#[test]
fn numerals_have_no_leading_zero() {
    for m in u8::MIN..=u8::MAX {
        let mut out = String::from("x");
        append_numeral(&mut out, m);
        assert_eq!(out, format!("x{}", m));
    }
}

#[test]
fn decimal_text_is_appended_with_its_sign() {
    let mut out = String::new();
    append_decimal(&mut out, 0);
    assert_eq!(out, "0");
    append_decimal(&mut out, -1);
    assert_eq!(out, "0-1");
    append_decimal(&mut out, 127);
    assert_eq!(out, "0-1127");
    append_decimal(&mut out, -128);
    assert_eq!(out, "0-1127-128");
}

#[test]
fn the_empty_register_denotes_no_number() {
    assert_eq!(parse_register(""), Some(None));
}

#[test]
fn registers_denote_their_numbers() {
    assert_eq!(parse_register("0"), Some(Some(0)));
    assert_eq!(parse_register("7"), Some(Some(7)));
    assert_eq!(parse_register("10"), Some(Some(10)));
    assert_eq!(parse_register("99"), Some(Some(99)));
    assert_eq!(parse_register("05"), Some(Some(5)));
    assert_eq!(parse_register("00"), Some(Some(0)));
    assert_eq!(parse_register("-0"), Some(Some(0)));
    assert_eq!(parse_register("-4"), Some(Some(-4)));
    assert_eq!(parse_register("-10"), Some(Some(-10)));
    assert_eq!(parse_register("-99"), Some(Some(-99)));
    for n in -99i8..=99 {
        assert_eq!(parse_register(&n.to_string()), Some(Some(n)));
    }
}

#[test]
fn malformed_registers_are_refused() {
    for text in [
        "-", "--", "--1", "-1-", "1-", "100", "-100", "000", "+1", "1a", "a1", " 1", "1 ", "- 1",
        "#", "b", "1.5", "\u{0663}", "-\u{ff11}",
    ] {
        assert_eq!(parse_register(text), None);
    }
}
