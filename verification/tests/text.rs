use transr::text::char_is_space;
use transr::text::join;
use transr::text::join3;
use transr::text::parse_u32;
use transr::text::render_decimal;
use transr::text::render_signed;
use transr::text::same_text;
use transr::text::split_on_commas;
use transr::text::trim;

#[test]
fn decimal_rendering() {
    assert_eq!(render_decimal(0), "0");
    assert_eq!(render_decimal(7), "7");
    assert_eq!(render_decimal(10), "10");
    assert_eq!(render_decimal(1002003), "1002003");
    assert_eq!(render_decimal(u128::MAX), u128::MAX.to_string());
}

#[test]
fn signed_rendering() {
    assert_eq!(render_signed(0), "0");
    assert_eq!(render_signed(-1), "-1");
    assert_eq!(render_signed(42), "42");
    assert_eq!(render_signed(i64::MIN), "-9223372036854775808");
    assert_eq!(render_signed(i64::MAX), "9223372036854775807");
}

#[test]
fn comparing_and_joining() {
    assert!(same_text("abc", "abc"));
    assert!(!same_text("abc", "abd"));
    assert!(!same_text("abc", "ab"));
    assert!(same_text("", ""));
    assert_eq!(join("ab", "cd"), "abcd");
    assert_eq!(join("", ""), "");
    assert_eq!(join3("a", "", "c"), "ac");
}

#[test]
fn trimming() {
    assert_eq!(trim("  a b  "), "a b");
    assert_eq!(trim("\t\nx\r\n"), "x");
    assert_eq!(trim("   "), "");
    assert_eq!(trim(""), "");
    assert_eq!(trim("x"), "x");
    assert_eq!(trim("\u{3000}é\u{a0}"), "é");
    for c in ['\u{1680}', '\u{2000}', '\u{200a}', '\u{2028}', '\u{2029}', '\u{202f}', '\u{205f}', '\u{85}'] {
        assert!(char_is_space(c));
    }
    assert!(!char_is_space('\u{200b}'));
    assert!(!char_is_space('a'));
    for code in 0u32..0x4000 {
        if let Some(c) = char::from_u32(code) {
            assert_eq!(char_is_space(c), c.is_whitespace());
        }
    }
}

#[test]
fn splitting_on_commas() {
    assert_eq!(split_on_commas("a,b"), vec!["a", "b"]);
    assert_eq!(split_on_commas(""), vec![""]);
    assert_eq!(split_on_commas("abc"), vec!["abc"]);
    assert_eq!(split_on_commas(","), vec!["", ""]);
    assert_eq!(split_on_commas("a,,b,"), vec!["a", "", "b", ""]);
    assert_eq!(split_on_commas(" a , b "), vec![" a ", " b "]);
    for s in ["x,y,z", ",,", "é,ü", "no comma"] {
        let expected: Vec<&str> = s.split(',').collect();
        assert_eq!(split_on_commas(s), expected);
    }
}

#[test]
fn parsing_unsigned_numbers() {
    assert_eq!(parse_u32("0"), Some(0));
    assert_eq!(parse_u32("5"), Some(5));
    assert_eq!(parse_u32("+5"), Some(5));
    assert_eq!(parse_u32("007"), Some(7));
    assert_eq!(parse_u32("4294967295"), Some(u32::MAX));
    assert_eq!(parse_u32("4294967296"), None);
    assert_eq!(parse_u32("99999999999999999999999999"), None);
    assert_eq!(parse_u32(""), None);
    assert_eq!(parse_u32("+"), None);
    assert_eq!(parse_u32("-5"), None);
    assert_eq!(parse_u32("12a"), None);
    assert_eq!(parse_u32(" 5"), None);
    assert_eq!(parse_u32("++5"), None);
    assert_eq!(parse_u32("٣"), None);
    for s in ["1", "+0", "000", "42949672950", "1e3", "+-1"] {
        assert_eq!(parse_u32(s), s.parse::<u32>().ok());
    }
}
