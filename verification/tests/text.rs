use dji_live_bridge::text::{
    contains, first_line_of, first_token_of, last_token_of, parse_i32, parse_u64, split_lines,
    trim_end_str, trim_str,
};

#[test]
fn unsigned_numbers_parse_as_rust_does() {
    assert_eq!(parse_u64("42"), Some(42));
    assert_eq!(parse_u64("+7"), Some(7));
    assert_eq!(parse_u64("18446744073709551615"), Some(u64::MAX));
    assert_eq!(parse_u64("18446744073709551616"), None);
    assert_eq!(parse_u64(""), None);
    assert_eq!(parse_u64("+"), None);
    assert_eq!(parse_u64("-1"), None);
    assert_eq!(parse_u64(" 1"), None);
}

#[test]
fn signed_numbers_parse_as_rust_does() {
    assert_eq!(parse_i32("1234"), Some(1234));
    assert_eq!(parse_i32("-17"), Some(-17));
    assert_eq!(parse_i32("+5"), Some(5));
    assert_eq!(parse_i32("-0"), Some(0));
    assert_eq!(parse_i32("2147483647"), Some(i32::MAX));
    assert_eq!(parse_i32("-2147483648"), Some(i32::MIN));
    assert_eq!(parse_i32("2147483648"), None);
    assert_eq!(parse_i32("-2147483649"), None);
    assert_eq!(parse_i32("99999999999999999999999"), None);
    assert_eq!(parse_i32("-"), None);
    assert_eq!(parse_i32("12a"), None);
    assert_eq!(parse_i32(""), None);
    for s in ["0", "-1", "+12", "300", "-2147483648", "2147483648", "x", "--1"] {
        assert_eq!(parse_i32(s), s.parse::<i32>().ok(), "{s}");
    }
}

#[test]
fn lines_split_as_str_lines_does() {
    for text in ["a\nb", "a\r\nb\n", "", "\n", "x\n\ny", "only"] {
        let expected: Vec<String> = text.lines().map(str::to_string).collect();
        assert_eq!(split_lines(text), expected, "{text:?}");
    }
    assert_eq!(first_line_of("ffmpeg version 7.1\nbuilt with").as_deref(), Some("ffmpeg version 7.1"));
    assert_eq!(first_line_of(""), None);
}

#[test]
fn trimming_and_tokens_match_std() {
    for text in ["  a b  ", "\t\n", "x", " lead", "trail \n"] {
        assert_eq!(trim_str(text), text.trim(), "{text:?}");
        assert_eq!(trim_end_str(text), text.trim_end(), "{text:?}");
        assert_eq!(first_token_of(text).as_deref(), text.split_whitespace().next(), "{text:?}");
        assert_eq!(last_token_of(text).as_deref(), text.split_whitespace().last(), "{text:?}");
    }
    assert!(contains("h264_nvenc and more", "nvenc"));
    assert!(!contains("abc", "abd"));
    assert!(contains("abc", ""));
}
