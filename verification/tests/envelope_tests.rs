use mcp_stdio_http_bridge::envelope::error_envelope;
use mcp_stdio_http_bridge::pump::{fatal_envelope, shutdown_envelope};

#[test]
fn shutdown_envelope_is_the_exact_json_object() {
    assert_eq!(
        shutdown_envelope(),
        "{\"jsonrpc\":\"2.0\",\"error\":{\"code\":-32603,\"message\":\"bridge shutdown during retry\"}}"
    );
}

#[test]
fn fatal_envelope_carries_code_and_message() {
    let env = fatal_envelope("connection reset");
    let v: serde_json::Value = serde_json::from_str(&env).expect("envelope must be valid JSON");
    assert_eq!(v["jsonrpc"], "2.0");
    assert_eq!(v["error"]["code"], -32603);
    assert_eq!(
        v["error"]["message"],
        "bridge transport error: connection reset"
    );
}

#[test]
fn envelope_escapes_quotes_backslashes_and_newlines() {
    let env = error_envelope("he said \"hi\\\"\nbye");
    let v: serde_json::Value = serde_json::from_str(&env).expect("envelope must be valid JSON");
    assert_eq!(v["error"]["message"], "he said \"hi\\\"\nbye");
}

#[test]
fn envelope_escapes_control_characters() {
    let env = error_envelope("a\u{1}b\tc\rd");
    let v: serde_json::Value = serde_json::from_str(&env).expect("envelope must be valid JSON");
    assert_eq!(v["error"]["message"], "a\u{1}b\tc\rd");
    assert!(env.contains("\\u0001"));
}

#[test]
fn envelope_with_empty_message() {
    let env = error_envelope("");
    assert_eq!(
        env,
        "{\"jsonrpc\":\"2.0\",\"error\":{\"code\":-32603,\"message\":\"\"}}"
    );
}
