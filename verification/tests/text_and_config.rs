use auto_role_bot::config::{get_log_level, LogLevel};
use auto_role_bot::state::{normalize_base_url, parse_guild_id, GuildIdError};
use auto_role_bot::status::{format_status, is_not_found, is_success, status_text};
use auto_role_bot::text::{
    chars_of, contains_text, equals_ignoring_ascii_case, i64_to_decimal, parse_u64, u64_to_decimal,
};

#[test]
fn decimal_text_of_numbers() {
    assert_eq!(u64_to_decimal(0), "0");
    assert_eq!(u64_to_decimal(7), "7");
    assert_eq!(u64_to_decimal(1234567890), "1234567890");
    assert_eq!(u64_to_decimal(u64::MAX), "18446744073709551615");
    assert_eq!(i64_to_decimal(-42), "-42");
    assert_eq!(i64_to_decimal(i64::MIN), "-9223372036854775808");
    assert_eq!(i64_to_decimal(i64::MAX), "9223372036854775807");
}

#[test]
fn parsing_unsigned_numbers() {
    assert_eq!(parse_u64("0"), Some(0));
    assert_eq!(parse_u64("+17"), Some(17));
    assert_eq!(parse_u64("18446744073709551615"), Some(u64::MAX));
    assert_eq!(parse_u64("18446744073709551616"), None);
    assert_eq!(parse_u64(""), None);
    assert_eq!(parse_u64("+"), None);
    assert_eq!(parse_u64("-1"), None);
    assert_eq!(parse_u64("12a"), None);
    assert_eq!(parse_u64(" 1"), None);
    assert_eq!(parse_u64("00042"), Some(42));
}

#[test]
fn decimal_round_trip_on_samples() {
    for n in [0u64, 1, 9, 10, 99, 100, 4096, 987654321012345678, u64::MAX] {
        assert_eq!(parse_u64(&u64_to_decimal(n)), Some(n));
        assert_eq!(parse_u64(&u64_to_decimal(n)), n.to_string().parse::<u64>().ok());
    }
}

#[test]
fn text_search_and_case_folding() {
    assert_eq!(chars_of("héllo"), vec!['h', 'é', 'l', 'l', 'o']);
    assert!(contains_text("UNIQUE constraint failed: linked_users.id", "UNIQUE constraint failed"));
    assert!(!contains_text("unique constraint failed", "UNIQUE constraint failed"));
    assert!(contains_text("abc", ""));
    assert!(!contains_text("ab", "abc"));
    assert!(equals_ignoring_ascii_case("TrAcE", "trace"));
    assert!(!equals_ignoring_ascii_case("trac", "trace"));
    assert!(!equals_ignoring_ascii_case("tracé", "trace"));
}

#[test]
fn log_level_setting() {
    assert_eq!(get_log_level(None, true), Some(LogLevel::Trace));
    assert_eq!(get_log_level(None, false), Some(LogLevel::Info));
    assert_eq!(get_log_level(Some("WARN"), false), Some(LogLevel::Warn));
    assert_eq!(get_log_level(Some("debug"), false), Some(LogLevel::Debug));
    assert_eq!(get_log_level(Some("Info"), true), Some(LogLevel::Info));
    assert_eq!(get_log_level(Some("error"), true), Some(LogLevel::Error));
    assert_eq!(get_log_level(Some("oFF"), true), Some(LogLevel::Off));
    assert_eq!(get_log_level(Some("none"), true), Some(LogLevel::Off));
    assert_eq!(get_log_level(Some("None"), false), Some(LogLevel::Off));
    assert_eq!(get_log_level(Some("nothing"), true), None);
    assert_eq!(get_log_level(Some(""), true), None);
}

#[test]
fn level_names_read_back() {
    for (name, level) in [
        ("trace", LogLevel::Trace),
        ("debug", LogLevel::Debug),
        ("info", LogLevel::Info),
        ("warn", LogLevel::Warn),
        ("error", LogLevel::Error),
        ("none", LogLevel::Off),
        ("off", LogLevel::Off),
    ] {
        assert_eq!(get_log_level(Some(name), false), Some(level));
        assert_eq!(get_log_level(Some(&name.to_uppercase()), false), Some(level));
    }
}

#[test]
fn base_url_loses_one_trailing_slash() {
    assert_eq!(normalize_base_url("https://example.com/".to_string()), "https://example.com");
    assert_eq!(normalize_base_url("https://example.com".to_string()), "https://example.com");
    assert_eq!(normalize_base_url("https://example.com//".to_string()), "https://example.com/");
    assert_eq!(normalize_base_url(String::new()), "");
}

#[test]
fn guild_ids() {
    assert_eq!(parse_guild_id("1234"), Ok(1234));
    assert_eq!(parse_guild_id("0"), Err(GuildIdError::Zero));
    assert_eq!(parse_guild_id("abc"), Err(GuildIdError::NotAnInteger));
    assert_eq!(parse_guild_id("-5"), Err(GuildIdError::NotAnInteger));
}

#[test]
fn status_codes() {
    assert!(is_success(200));
    assert!(is_success(204));
    assert!(!is_success(199));
    assert!(!is_success(300));
    assert!(!is_success(404));
    assert!(!is_success(5));
    assert!(is_not_found(404));
    assert!(!is_not_found(500));
    assert_eq!(status_text(404), "404 Not Found");
    assert_eq!(status_text(500), "500 Internal Server Error");
    assert_eq!(status_text(299), "299 <unknown status code>");
}

#[test]
fn status_shown_with_given_reason() {
    assert_eq!(format_status(418, Some("I'm a teapot")), "418 I'm a teapot");
    assert_eq!(format_status(799, None), "799 <unknown status code>");
}

