use logger::filter::is_white_space_char;
use logger::{is_safe_to_parse, filter_expression, LogLevel};

#[test]
fn filter_expression_for_each_level() {
    assert_eq!(filter_expression("my-service", LogLevel::Error), "error,my-service=error");
    assert_eq!(filter_expression("my-service", LogLevel::Warn), "warn,my-service=warn");
    assert_eq!(filter_expression("my-service", LogLevel::Info), "info,my-service=info");
    assert_eq!(filter_expression("my-service", LogLevel::Debug), "debug,my-service=debug");
    assert_eq!(filter_expression("my-service", LogLevel::Trace), "trace,my-service=trace");
}

#[test]
fn filter_expression_of_the_end_to_end_case() {
    assert_eq!(filter_expression("svc-a", LogLevel::Debug), "debug,svc-a=debug");
}

#[test]
fn filter_expression_keeps_the_name_verbatim() {
    assert_eq!(filter_expression("a b,c=d", LogLevel::Info), "info,a b,c=d=info");
    assert_eq!(filter_expression("café::naïve", LogLevel::Warn), "warn,café::naïve=warn");
    assert_eq!(filter_expression("", LogLevel::Trace), "trace,=trace");
}

#[test]
fn filter_expression_has_the_name_between_two_levels() {
    let levels = [
        LogLevel::Error,
        LogLevel::Warn,
        LogLevel::Info,
        LogLevel::Debug,
        LogLevel::Trace,
    ];
    for level in levels {
        for name in ["svc", "x", "my_crate::module", "日本語"] {
            let expected = format!("{},{}={}", level.as_str(), name, level.as_str());
            assert_eq!(filter_expression(name, level), expected);
        }
    }
}

#[test]
fn white_space_is_what_trimming_removes() {
    for c in ['\t', '\n', '\u{0B}', '\u{0C}', '\r', ' ', '\u{85}', '\u{A0}', '\u{1680}', '\u{2000}',
        '\u{2005}', '\u{200A}', '\u{2028}', '\u{2029}', '\u{202F}', '\u{205F}', '\u{3000}']
    {
        assert!(is_white_space_char(c));
    }
    for c in ['a', ',', '=', '\0', '\u{08}', '\u{0E}', '\u{1F}', '!', '\u{84}', '\u{86}', '\u{200B}',
        '\u{FEFF}', 'é']
    {
        assert!(!is_white_space_char(c));
    }
}

#[test]
fn white_space_agrees_with_std_on_every_char() {
    let mut code: u32 = 0;
    while code <= 0x10FFFF {
        if let Some(c) = char::from_u32(code) {
            assert_eq!(is_white_space_char(c), c.is_whitespace());
        }
        code += 1;
    }
}

#[test]
fn safe_to_parse_accepts_ordinary_names() {
    assert!(is_safe_to_parse("svc-a"));
    assert!(is_safe_to_parse("my-service"));
    assert!(is_safe_to_parse(""));
    assert!(is_safe_to_parse("my service"));
    assert!(is_safe_to_parse("café"));
    assert!(is_safe_to_parse("日本語,サービス"));
    assert!(is_safe_to_parse("svc é"));
}

#[test]
fn safe_to_parse_accepts_ascii_with_leading_space() {
    assert!(is_safe_to_parse(" svc"));
    assert!(is_safe_to_parse("a, b"));
    assert!(is_safe_to_parse("\tsvc,\n"));
}

#[test]
fn safe_to_parse_refuses_leading_space_before_wide_chars() {
    assert!(!is_safe_to_parse(" é"));
    assert!(!is_safe_to_parse("é, x"));
    assert!(!is_safe_to_parse("\u{3000}svc"));
    assert!(!is_safe_to_parse("svc,\u{A0}x"));
    assert!(!is_safe_to_parse("日本, 語"));
}

#[test]
fn safe_to_parse_of_every_filter_expression_follows_the_name() {
    for name in ["svc-a", "", " é", "é, x", "café", " svc", "a,b", "x,"] {
        for level in [LogLevel::Error, LogLevel::Info, LogLevel::Trace] {
            assert_eq!(is_safe_to_parse(&filter_expression(name, level)), is_safe_to_parse(name));
        }
    }
}
