use gpui_net_shell::rules::{nonblank_lines, parse_tokens};
use gpui_net_shell::text::{
    char_is_whitespace, decimal_string, parse_u64, split_text, str_equal, str_is_blank,
};

#[test]
fn whitespace_agrees_with_the_standard_library() {
    for code in 0u32..0x3100 {
        if let Some(c) = char::from_u32(code) {
            assert_eq!(char_is_whitespace(c), c.is_whitespace(), "{code:#x}");
        }
    }
    for c in ['\u{feff}', '\u{10ffff}', 'a', '\u{200b}'] {
        assert_eq!(char_is_whitespace(c), c.is_whitespace());
    }
    assert!(str_is_blank(" \t\n\u{3000}"));
    assert!(str_is_blank(""));
    assert!(!str_is_blank(" x "));
}

#[test]
fn splitting_agrees_with_str_split() {
    for text in ["", ",", "a,b", ",a,,b,", "no separator", "ü,ß"] {
        let expected: Vec<String> = text.split(',').map(str::to_owned).collect();
        assert_eq!(split_text(text, ','), expected, "{text:?}");
    }
    assert_eq!(nonblank_lines("a\n \n\tb\n"), vec!["a".to_string(), "\tb".to_string()]);
    assert_eq!(parse_tokens("1,,2,x,18446744073709551615,18446744073709551616"), vec![
        1,
        2,
        u64::MAX
    ]);
}

#[test]
fn numbers_parse_and_print_in_decimal() {
    for text in ["0", "7", "0042", "18446744073709551615", "18446744073709551616", "", "+1", "-1", " 1", "1x"] {
        assert_eq!(parse_u64(text), text.parse::<u64>().ok(), "{text:?}");
    }
    for n in [0u64, 9, 10, 12345, u64::MAX] {
        assert_eq!(decimal_string(n), n.to_string());
    }
    assert!(str_equal("ab", "ab"));
    assert!(!str_equal("ab", "abc"));
}
