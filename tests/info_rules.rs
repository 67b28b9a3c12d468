use workbench_agent::info::{
    default_info_source_type, is_sensitive_key, normalize_keywords, normalize_push_time, parse_u32,
    quote_ident, weather_code_to_condition,
};

#[test]
fn weather_codes() {
    assert_eq!(weather_code_to_condition(0), "clear");
    assert_eq!(weather_code_to_condition(2), "cloudy");
    assert_eq!(weather_code_to_condition(48), "fog");
    assert_eq!(weather_code_to_condition(81), "rain");
    assert_eq!(weather_code_to_condition(86), "snow");
    assert_eq!(weather_code_to_condition(99), "thunder");
    assert_eq!(weather_code_to_condition(4), "unknown");
    assert_eq!(default_info_source_type(), "rss");
}

#[test]
fn push_times() {
    assert_eq!(normalize_push_time(" 7:5 "), "07:05");
    assert_eq!(normalize_push_time("25:99"), "23:59");
    assert_eq!(normalize_push_time("x:30"), "09:30");
    assert_eq!(normalize_push_time("+8:"), "08:00");
    assert_eq!(normalize_push_time("noon"), "09:00");
    assert_eq!(normalize_push_time("99999999999:1"), "09:01");
}

#[test]
fn u32_parsing() {
    let p = |s: &str| parse_u32(&s.chars().collect::<Vec<char>>());
    assert_eq!(p("4294967295"), Some(u32::MAX));
    assert_eq!(p("4294967296"), None);
    assert_eq!(p("+12"), Some(12));
    assert_eq!(p("+"), None);
    assert_eq!(p(""), None);
    assert_eq!(p("1a"), None);
}

#[test]
fn sensitive_keys() {
    assert!(is_sensitive_key("OPENAI_API_KEY"));
    assert!(is_sensitive_key("refreshToken"));
    assert!(!is_sensitive_key("theme"));
}

#[test]
fn quoting() {
    assert_eq!(quote_ident("todos"), "\"todos\"");
    assert_eq!(quote_ident("a\"b"), "\"a\"\"b\"");
}

#[test]
fn keywords() {
    let ks = vec![" Rust ".to_string(), "rust".to_string(), "".to_string(), "ÄPFEL".to_string()];
    assert_eq!(normalize_keywords(ks), vec!["rust", "äpfel"]);
}
