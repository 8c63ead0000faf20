use mcp_stdio_http_bridge::config::{parse_u64, Config};

#[test]
fn defaults_apply_when_nothing_is_set() {
    let c = Config::from_settings(None, None, None, None, None);
    assert_eq!(c.uri, "https://glo-matcher.brainapi.lumen-labs.ai/mcp");
    assert!(c.bearer_token.is_none());
    assert!(c.mcp_name.is_none());
    assert_eq!(c.timeout_ms, 60000);
    assert_eq!(c.max_queue, 10000);
    assert_eq!(c.max_backoff_ms, 30000);
}

#[test]
fn configured_values_are_taken() {
    let c = Config::from_settings(
        Some("http://localhost:8080/mcp".to_string()),
        Some("token".to_string()),
        Some("bridge-a".to_string()),
        Some("2500".to_string()),
        Some("16".to_string()),
    );
    assert_eq!(c.uri, "http://localhost:8080/mcp");
    assert_eq!(c.bearer_token.as_deref(), Some("token"));
    assert_eq!(c.mcp_name.as_deref(), Some("bridge-a"));
    assert_eq!(c.timeout_ms, 2500);
    assert_eq!(c.max_queue, 16);
}

#[test]
fn empty_token_and_name_count_as_absent() {
    let c = Config::from_settings(
        None,
        Some(String::new()),
        Some(String::new()),
        None,
        None,
    );
    assert!(c.bearer_token.is_none());
    assert!(c.mcp_name.is_none());
}

#[test]
fn unparsable_numbers_fall_back_to_defaults() {
    let c = Config::from_settings(
        None,
        None,
        None,
        Some("soon".to_string()),
        Some("-3".to_string()),
    );
    assert_eq!(c.timeout_ms, 60000);
    assert_eq!(c.max_queue, 10000);
}

#[test]
fn parse_u64_accepts_plain_and_plus_signed_numerals() {
    assert_eq!(parse_u64("0"), Some(0));
    assert_eq!(parse_u64("2500"), Some(2500));
    assert_eq!(parse_u64("+42"), Some(42));
    assert_eq!(parse_u64("18446744073709551615"), Some(u64::MAX));
}

#[test]
fn parse_u64_rejects_empty_signs_garbage_and_overflow() {
    assert_eq!(parse_u64(""), None);
    assert_eq!(parse_u64("+"), None);
    assert_eq!(parse_u64("12a"), None);
    assert_eq!(parse_u64("-1"), None);
    assert_eq!(parse_u64(" 7"), None);
    assert_eq!(parse_u64("18446744073709551616"), None);
    assert_eq!(parse_u64("99999999999999999999999"), None);
}
