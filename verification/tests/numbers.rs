use toolchain_pipeline::catalog::parse_code;
use toolchain_pipeline::steps::{code_text, number_text};

#[test]
fn codes_are_written_in_decimal() {
    assert_eq!(code_text(0), "0");
    assert_eq!(code_text(7), "7");
    assert_eq!(code_text(10), "10");
    assert_eq!(code_text(4021), "4021");
    assert_eq!(code_text(-1), "-1");
    assert_eq!(code_text(-90), "-90");
    assert_eq!(code_text(i32::MAX), "2147483647");
    assert_eq!(code_text(i32::MIN), "-2147483648");
    assert_eq!(number_text(0), "0");
    assert_eq!(number_text(1000), "1000");
    assert_eq!(number_text(u32::MAX), "4294967295");
}

#[test]
fn written_codes_agree_with_the_standard_library() {
    let mut n: i64 = i32::MIN as i64;
    while n <= i32::MAX as i64 {
        let code = n as i32;
        assert_eq!(code_text(code), code.to_string());
        n += 9_999_991;
    }
    for code in -1200..1200 {
        assert_eq!(code_text(code), code.to_string());
    }
}

#[test]
fn keys_are_read_as_codes() {
    assert_eq!(parse_code("0"), Some(0));
    assert_eq!(parse_code("42"), Some(42));
    assert_eq!(parse_code("+42"), Some(42));
    assert_eq!(parse_code("-000"), Some(0));
    assert_eq!(parse_code("-0"), Some(0));
    assert_eq!(parse_code("0042"), Some(42));
    assert_eq!(parse_code("2147483647"), Some(i32::MAX));
    assert_eq!(parse_code("00000000000000000000000000000012"), Some(12));
}

#[test]
fn keys_that_are_no_codes_are_refused() {
    for key in [
        "", "+", "-", "+-1", "--1", "1-", "1+", " 1", "1 ", "1.0", "1e3", "0x1f", "one", "١٢", "1_000",
        "2147483648", "-2147483649", "99999999999999999999999", "-99999999999999999999999", "v1",
        "-1", "-42", "-007", "-2147483647", "-2147483648",
    ] {
        assert_eq!(parse_code(key), None, "{key:?}");
    }
}

#[test]
fn read_codes_agree_with_the_standard_library_from_zero_up() {
    let keys = [
        "", "+", "-", "0", "-0", "+0", "12", "+12", "-12", "012", "2147483647", "2147483648",
        "-2147483648", "-2147483649", "4294967296", "1a", "a1", " 1", "1 ", "+-1", "１２", "1\n",
        "000000000000000000002147483647", "000000000000000000002147483648", "-1", "-00",
    ];
    for key in keys {
        let expected = key.parse::<i32>().ok().filter(|code| *code >= 0);
        assert_eq!(parse_code(key), expected, "{key:?}");
    }
    for code in 0..1200 {
        assert_eq!(parse_code(&code.to_string()), Some(code));
    }
    for code in -1200..0 {
        assert_eq!(parse_code(&code.to_string()), None);
    }
}
