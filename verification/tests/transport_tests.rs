use mcp_stdio_http_bridge::transport::{
    bearer_header_value, classify_outcome, decode_exchange, decode_response, is_retryable,
    TransportError, TransportOutcome,
};

fn network_error(connect: bool, timeout: bool, request: bool) -> TransportError {
    TransportError::Network {
        connect,
        timeout,
        request,
        detail: "boom".to_string(),
    }
}

#[test]
fn bearer_header_value_prefixes_the_scheme() {
    assert_eq!(bearer_header_value("tok"), "Bearer tok");
}

#[test]
fn accepted_status_yields_no_lines() {
    let out = decode_response(202, "application/json", "{\"jsonrpc\":\"2.0\",\"id\":1}");
    assert!(out.is_empty());
}

#[test]
fn whitespace_body_yields_no_lines() {
    let out = decode_response(200, "application/json", "  \t\r\n ");
    assert!(out.is_empty());
}

#[test]
fn empty_body_yields_no_lines() {
    let out = decode_response(200, "application/json", "");
    assert!(out.is_empty());
}

#[test]
fn unicode_whitespace_body_yields_no_lines() {
    let out = decode_response(200, "application/json", "\u{a0}\u{2003}\u{3000}");
    assert!(out.is_empty());
}

#[test]
fn accepted_status_wins_over_an_undecodable_body() {
    let r = decode_exchange(202, "application/json", None);
    assert!(matches!(r, Ok(v) if v.is_empty()));
}

#[test]
fn undecodable_body_is_a_fatal_decoding_failure() {
    let r = decode_exchange(200, "application/json", None);
    assert!(matches!(r, Err(TransportError::InvalidUtf8)));
}

#[test]
fn decodable_body_goes_through_the_decoder() {
    let r = decode_exchange(
        200,
        "text/event-stream",
        Some("data: A\n\ndata: B\n\n".to_string()),
    );
    assert!(matches!(r, Ok(v) if v == vec!["A".to_string(), "B".to_string()]));
}

#[test]
fn event_stream_body_is_decoded() {
    let out = decode_response(
        200,
        "text/event-stream; charset=utf-8",
        "data: A\n\ndata: B\n\n",
    );
    assert_eq!(out, vec!["A".to_string(), "B".to_string()]);
}

#[test]
fn plain_body_is_returned_verbatim() {
    let body = "{\"jsonrpc\":\"2.0\",\"id\":1,\"result\":{}}";
    let out = decode_response(200, "application/json", body);
    assert_eq!(out, vec![body.to_string()]);
}

#[test]
fn connect_timeout_and_request_failures_are_retryable() {
    assert!(is_retryable(&network_error(true, false, false)));
    assert!(is_retryable(&network_error(false, true, false)));
    assert!(is_retryable(&network_error(false, false, true)));
}

#[test]
fn other_network_failures_are_not_retryable() {
    assert!(!is_retryable(&network_error(false, false, false)));
}

#[test]
fn local_failures_are_not_retryable() {
    assert!(!is_retryable(&TransportError::InvalidUtf8));
    assert!(!is_retryable(&TransportError::Io {
        detail: "broken pipe".to_string(),
    }));
}

#[test]
fn success_is_classified_with_its_lines() {
    let o = classify_outcome(Ok(vec!["a".to_string(), "b".to_string()]));
    match o {
        TransportOutcome::Success(lines) => {
            assert_eq!(lines, vec!["a".to_string(), "b".to_string()]);
        }
        _ => panic!("expected success"),
    }
}

#[test]
fn retryable_failure_is_classified_with_its_text() {
    let o = classify_outcome(Err(network_error(true, false, false)));
    match o {
        TransportOutcome::RetryableFailure(d) => assert_eq!(d, "network: boom"),
        _ => panic!("expected retryable failure"),
    }
}

#[test]
fn invalid_utf8_is_a_fatal_failure() {
    let o = classify_outcome(Err(TransportError::InvalidUtf8));
    match o {
        TransportOutcome::FatalFailure(d) => assert_eq!(d, "invalid UTF-8 in response"),
        _ => panic!("expected fatal failure"),
    }
}

#[test]
fn io_failure_is_fatal_with_its_text() {
    let o = classify_outcome(Err(TransportError::Io {
        detail: "broken pipe".to_string(),
    }));
    match o {
        TransportOutcome::FatalFailure(d) => assert_eq!(d, "io: broken pipe"),
        _ => panic!("expected fatal failure"),
    }
}
