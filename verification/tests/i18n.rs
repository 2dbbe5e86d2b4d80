use fyles_core::i18n::{
    can_be_formatted, choose_locale, decimal_separator_of, detect_langid, format_file_size, format_file_size_with,
    get_decimal_separator, supported_locales, text_or_placeholder, text_resource,
    text_resource_args, text_without_errors, Langid, Language,
};

const FTL: &str = "file-received-title = File received
file-received-mess-with-contact = { $senderName } sent { $fileName } ({ $fileSizeValue } { $fileSizeUnit }) for { $requestName }
";

fn init_i18n() -> Language {
    Language::try_new(detect_langid(), FTL.to_string()).expect("the messages to be readable")
}

#[test]
fn test_format_file_size() {
    let test_cases = vec![
        (0, ("0", "B")),
        (500, ("500", "B")),
        (1500, ("1", "KB")),
        (1500000, ("1", "MB")),
        (1500000000, ("1", "GB")),
        (15000000000, ("15", "GB")),
    ];

    for (bytes, expected) in test_cases {
        let (value, unit) = format_file_size(bytes);
        assert_eq!(unit, expected.1, "Unit should match for {} bytes", bytes);

        // Value should start with expected number (formatting may add decimals/separators)
        assert!(
            value.starts_with(expected.0),
            "Value '{}' should start with '{}' for {} bytes",
            value,
            expected.0,
            bytes
        );
    }
}

#[test]
fn test_init_i18n() {
    let language = init_i18n();
    let result = text_resource(&language, "file-received-title");
    assert!(!result.is_empty(), "Translation result should not be empty");
    assert!(
        !result.starts_with('<'),
        "Translation should not be an error placeholder"
    );
    assert_eq!(result, "File received");
}

#[test]
fn test_translation_with_args() {
    let language = init_i18n();
    let result = text_resource_args(
        &language,
        "file-received-mess-with-contact",
        &vec![
            ("senderName".to_string(), "John".to_string()),
            ("fileName".to_string(), "test.txt".to_string()),
            ("fileSizeValue".to_string(), "1.5".to_string()),
            ("fileSizeUnit".to_string(), "MB".to_string()),
            ("requestName".to_string(), "Photos".to_string()),
        ],
    );

    assert!(
        !result.is_empty(),
        "Translation with args should not be empty"
    );
    assert!(
        !result.starts_with('<'),
        "Translation should not be an error placeholder"
    );
    assert!(
        result.contains("John"),
        "Translation should contain sender name"
    );
    assert!(
        result.contains("test.txt"),
        "Translation should contain file name"
    );
    assert!(
        result.contains("1.5"),
        "Translation should contain file size value"
    );
    assert!(
        result.contains("MB"),
        "Translation should contain file size unit"
    );
    assert!(
        result.contains("Photos"),
        "Translation should contain request name"
    );
}

#[test]
fn test_detect_langid() {
    let langid = detect_langid();
    assert!(!langid.tag().is_empty(), "Language ID should not be empty");
    let language_code = langid.language();
    assert!(
        !language_code.is_empty(),
        "Language code should not be empty"
    );
    assert!(
        language_code.chars().all(|c| c.is_ascii_lowercase()),
        "Language code should be lowercase ASCII"
    );
}

#[test]
fn test_missing_translation() {
    let language = init_i18n();
    let result = text_resource(&language, "non-existent-key");
    assert!(
        result.starts_with('<') && result.ends_with('>'),
        "Should return error placeholder for missing key"
    );
}

#[test]
fn locales_are_cleaned_before_they_are_read() {
    let german = Langid::from_locale(Some("de_AT.UTF-8".to_string()));
    assert_eq!(german.tag(), "de-AT");
    assert_eq!(german.language(), "de");
    let unknown = Langid::from_locale(Some("?!".to_string()));
    assert_eq!(unknown.tag(), "en-US");
    assert_eq!(Langid::from_locale(None).language(), "en");
}

#[test]
fn the_closest_supported_locale_is_chosen() {
    let locales = supported_locales();
    let chosen = |raw: &str| locales[choose_locale(&Langid::from_locale(Some(raw.to_string())))];
    assert_eq!(chosen("pt_BR"), "pt-BR");
    assert_eq!(chosen("pt_PT"), "pt-PT");
    assert_eq!(chosen("de_CH"), "de-DE");
    assert_eq!(chosen("xx"), "en-US");
    assert_eq!(locales.len(), 41);
}

#[test]
fn unreadable_messages_are_refused() {
    assert!(Language::try_new(Langid::from_locale(None), "= broken".to_string()).is_none());
}

fn reads(ftl: &str) -> bool {
    Language::try_new(Langid::from_locale(Some("en".to_string())), ftl.to_string()).is_some()
}

#[test]
fn messages_that_cannot_always_be_formatted_are_refused() {
    let many = "{ \"\" }".repeat(101);
    assert!(!reads(&format!("m = {{ 1 ->\n   *[other] {many}\n }}\n")));
    assert!(!reads(&format!("m = {{ -1.5->\n   *[other] {many}\n }}\n")));
    assert!(!reads(&format!("m = {{ \"a\" ->\n   *[other] {many}\n }}\n")));
    assert!(!reads(&format!("n = {many}\nm = {{ {{ n }} }}\n")));
    assert!(!reads("-t = { $n ->\n  [one] a\n  *[other] b\n }\nm = { -t(n: 1.00000000000000000000) }\n"));
    assert!(!can_be_formatted("{\r\n {"));
    assert!(can_be_formatted("{ n } {"));
    assert!(can_be_formatted("123456789012.45"));
    assert!(!can_be_formatted("1234567890123.45"));
}

#[test]
fn choices_are_made_by_values() {
    let ftl = "m = { $n ->\n   [a1] first\n   *[other] { -t(n: 1) }\n }\n\
               -t = { $n ->\n   [one] second\n   *[other] third\n }\n";
    let language =
        Language::try_new(Langid::from_locale(Some("en".to_string())), ftl.to_string()).unwrap();
    let chosen = |value: &str| {
        text_resource_args(&language, "m", &vec![("n".to_string(), value.to_string())])
    };
    assert_eq!(chosen("a1"), "first");
    assert_eq!(chosen("b"), "second");
    let long = format!("m = {{ $n ->\n   *[other] {}\n }}\n", "{ \"\" }".repeat(101));
    let language = Language::try_new(Langid::from_locale(Some("en".to_string())), long).unwrap();
    assert_eq!(
        text_resource_args(&language, "m", &vec![("n".to_string(), "x".to_string())]),
        "<m>"
    );
}

#[test]
fn missing_texts_are_marked() {
    assert_eq!(text_or_placeholder(None, "some-id"), "<some-id>");
    assert_eq!(
        text_or_placeholder(Some("There".to_string()), "some-id"),
        "There"
    );
}

#[test]
fn separators_follow_the_language() {
    assert_eq!(decimal_separator_of("en"), '.');
    assert_eq!(decimal_separator_of("de"), ',');
    assert!(matches!(get_decimal_separator(), '.' | ','));
}

/// What the formula gives in floating point.
fn in_floating_point(bytes: u64) -> (String, &'static str) {
    let b = bytes as f64;
    if b < 1000.0 {
        (bytes.to_string(), "B")
    } else if b < 1000.0 * 1000.0 {
        (format!("{:.1}", b / 1000.0), "KB")
    } else if b < 1000.0 * 1000.0 * 1000.0 {
        (format!("{:.1}", b / 1000.0 / 1000.0), "MB")
    } else {
        (format!("{:.1}", b / 1000.0 / 1000.0 / 1000.0), "GB")
    }
}

#[test]
fn sizes_are_formatted_as_in_floating_point() {
    let mut sizes = vec![
        0,
        1,
        999,
        1000,
        1049,
        1050,
        1051,
        1149,
        1150,
        1250,
        999_949,
        999_950,
        999_999,
        1_000_000,
        1_050_000,
        1_250_000,
        999_949_999,
        999_950_000,
        1_000_000_000,
        1_050_000_000,
        u64::MAX,
        u64::MAX - 1,
        1 << 53,
        (1 << 53) + 1,
        (1 << 60) + 12345,
    ];
    let mut seed: u64 = 88172645463325252;
    for i in 0..4000u64 {
        seed ^= seed << 13;
        seed ^= seed >> 7;
        seed ^= seed << 17;
        sizes.push(seed >> (i % 64));
        sizes.push(i * 50);
        sizes.push(i * 50_000);
        sizes.push(i * 50_000_000);
    }
    for bytes in sizes {
        assert_eq!(
            format_file_size_with(bytes, '.'),
            in_floating_point(bytes),
            "for {bytes} bytes"
        );
    }
    assert_eq!(format_file_size_with(1500, ','), ("1,5".to_string(), "KB"));
}

#[test]
fn texts_with_errors_are_not_shown() {
    let text = || "text".to_string();
    assert_eq!(text_without_errors(Some((text(), 0))), Some(text()));
    assert_eq!(text_without_errors(Some((text(), 1))), None);
    assert_eq!(text_without_errors(None), None);
    assert_eq!(
        text_resource(&init_i18n(), "file-received-mess-with-contact"),
        "<file-received-mess-with-contact>"
    );
}
