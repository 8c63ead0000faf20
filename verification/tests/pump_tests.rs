use mcp_stdio_http_bridge::pump::{Pump, PumpAction, INITIAL_BACKOFF_MS};
use mcp_stdio_http_bridge::transport::TransportOutcome;

const CEILING: u64 = 30000;

fn retry_once(p: &mut Pump) -> u64 {
    let a = p.on_outcome(TransportOutcome::RetryableFailure(
        "network: boom".to_string(),
    ));
    let wait = match a {
        PumpAction::Wait(ms) => ms,
        _ => panic!("expected a wait"),
    };
    p.on_wait_elapsed(CEILING);
    wait
}

#[test]
fn backoff_doubles_and_caps_at_the_ceiling() {
    let mut p = Pump::new();
    assert!(p.accept_message(false));
    let mut waits = Vec::new();
    for _ in 0..9 {
        waits.push(retry_once(&mut p));
    }
    assert_eq!(
        waits,
        vec![500, 1000, 2000, 4000, 8000, 16000, 30000, 30000, 30000]
    );
}

#[test]
fn success_resets_the_next_wait_to_initial() {
    let mut p = Pump::new();
    assert!(p.accept_message(false));
    retry_once(&mut p);
    retry_once(&mut p);
    let a = p.on_outcome(TransportOutcome::Success(vec!["ok".to_string()]));
    match a {
        PumpAction::EmitLines(lines) => assert_eq!(lines, vec!["ok".to_string()]),
        _ => panic!("expected lines"),
    }
    assert_eq!(p.backoff_ms, INITIAL_BACKOFF_MS);
    let first = retry_once(&mut p);
    assert_eq!(first, INITIAL_BACKOFF_MS);
}

#[test]
fn backoff_is_not_carried_across_messages() {
    let mut p = Pump::new();
    assert!(p.accept_message(false));
    retry_once(&mut p);
    retry_once(&mut p);
    let a = p.on_outcome(TransportOutcome::FatalFailure(
        "io: broken pipe".to_string(),
    ));
    assert!(matches!(a, PumpAction::EmitEnvelope(_)));
    assert!(p.accept_message(false));
    assert_eq!(p.backoff_ms, INITIAL_BACKOFF_MS);
}

#[test]
fn fatal_failure_emits_one_envelope_and_no_retry() {
    let mut p = Pump::new();
    assert!(p.accept_message(false));
    let a = p.on_outcome(TransportOutcome::FatalFailure(
        "invalid UTF-8 in response".to_string(),
    ));
    match a {
        PumpAction::EmitEnvelope(env) => {
            let v: serde_json::Value = serde_json::from_str(&env).unwrap();
            assert_eq!(v["error"]["code"], -32603);
            assert_eq!(
                v["error"]["message"],
                "bridge transport error: invalid UTF-8 in response"
            );
        }
        _ => panic!("expected an envelope"),
    }
    assert!(!p.finished);
    assert!(!p.waiting);
    assert!(p.accept_message(false));
}

#[test]
fn shutdown_during_backoff_emits_one_envelope_and_stops_the_pump() {
    let mut p = Pump::new();
    assert!(p.accept_message(false));
    let a = p.on_outcome(TransportOutcome::RetryableFailure(
        "network: boom".to_string(),
    ));
    assert!(matches!(a, PumpAction::Wait(500)));
    let env = p.on_shutdown_during_wait();
    assert_eq!(
        env,
        "{\"jsonrpc\":\"2.0\",\"error\":{\"code\":-32603,\"message\":\"bridge shutdown during retry\"}}"
    );
    assert!(p.finished);
    assert!(!p.accept_message(false));
    assert!(!p.accept_message(false));
}

#[test]
fn message_arriving_after_shutdown_is_dropped_without_output() {
    let mut p = Pump::new();
    assert!(!p.accept_message(true));
    assert!(p.finished);
    assert!(!p.accept_message(false));
}
