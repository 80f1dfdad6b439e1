use prism_core::error::{GratError, JsonRpcError};
use prism_core::json::{Json, JsonMember};
use prism_core::rpc::client::{
    append_ledger_entries, backoff_duration, backoff_millis, check_simulation, ledger_key_chunks,
    next_step, CallAction, CallEvent, CallState, SimulateResult, SimulateTransactionResponse,
    MAX_DELAY_MS, BASE_DELAY_MS, MAX_RETRIES,
};
use prism_core::rpc::jsonrpc::{transport_backoff_millis, transport_step, JsonRpcResponse, TransportAction, TransportEvent, TransportState};
use std::time::Duration;

#[test]
fn backoff_increases_exponentially() {
    assert_eq!(backoff_duration(1), Duration::from_millis(200));
    assert_eq!(backoff_duration(2), Duration::from_millis(400));
    assert_eq!(backoff_duration(3), Duration::from_millis(800));
    assert_eq!(backoff_duration(4), Duration::from_millis(1_600));
    assert_eq!(backoff_duration(5), Duration::from_millis(3_200));
    assert_eq!(backoff_duration(6), Duration::from_millis(6_400));
}

#[test]
fn backoff_is_capped_at_max_delay() {
    assert_eq!(backoff_duration(7), Duration::from_millis(MAX_DELAY_MS));
    assert_eq!(backoff_duration(63), Duration::from_millis(MAX_DELAY_MS));
}

#[test]
fn backoff_attempt_zero_returns_base_delay() {
    assert_eq!(backoff_duration(0), Duration::from_millis(BASE_DELAY_MS));
}

#[test]
fn backoff_millis_values() {
    assert_eq!(backoff_millis(0), 100);
    assert_eq!(backoff_millis(6), 6_400);
    assert_eq!(backoff_millis(7), 10_000);
    assert_eq!(backoff_millis(u32::MAX), 10_000);
}

fn empty_simulation() -> SimulateTransactionResponse {
    SimulateTransactionResponse {
        latest_ledger: 100,
        soroban_data: Some("AAAA".to_string()),
        min_resource_fee: Some("1000".to_string()),
        auth: vec![],
        results: vec![],
        error: None,
        events: vec![],
        cost: None,
    }
}

#[test]
fn test_simulate_response_is_success() {
    let ok = empty_simulation();
    assert!(ok.is_success());

    let err = SimulateTransactionResponse { error: Some("contract trap".to_string()), ..ok };
    assert!(!err.is_success());
}

#[test]
fn return_value_is_first_result_xdr() {
    let mut r = empty_simulation();
    assert_eq!(r.return_value_xdr(), None);
    r.results = vec![
        SimulateResult { xdr: "RETVAL=".to_string(), auth: vec![] },
        SimulateResult { xdr: "OTHER=".to_string(), auth: vec![] },
    ];
    assert_eq!(r.return_value_xdr(), Some("RETVAL="));
}

#[test]
fn failed_simulation_is_an_rpc_error() {
    let mut r = empty_simulation();
    r.error = Some("contract trap".to_string());
    match check_simulation(r) {
        Err(GratError::RpcError(m)) => assert_eq!(m, "simulateTransaction failed: contract trap"),
        _ => panic!("expected an RPC error"),
    }
    assert!(check_simulation(empty_simulation()).is_ok());
}

fn begin() -> CallState {
    let (s, step) = next_step::<Json>(CallState { attempt: 0, last_error: None }, CallEvent::Begin);
    assert!(matches!(step.action, CallAction::Send { attempt: 0, delay_ms: 0 }));
    s
}

#[test]
fn server_errors_are_retried_with_backoff_until_spent() {
    let mut state = begin();
    for expected in 1..=MAX_RETRIES {
        let (s, step) = next_step::<Json>(state, CallEvent::Status(500));
        assert_eq!(step.record_http_error, Some(500));
        match step.action {
            CallAction::Send { attempt, delay_ms } => {
                assert_eq!(attempt, expected);
                assert_eq!(delay_ms, backoff_millis(expected));
            }
            _ => panic!("expected a retry"),
        }
        state = s;
    }
    let (_, step) = next_step::<Json>(state, CallEvent::Status(500));
    match step.action {
        CallAction::Finish(Err(GratError::RpcError(m))) => {
            assert_eq!(m, "Server error 500 Internal Server Error on attempt 3")
        }
        _ => panic!("expected the call to end"),
    }
}

#[test]
fn rate_limit_message_names_the_attempt() {
    let state = begin();
    let (s, step) = next_step::<Json>(state, CallEvent::Status(429));
    assert_eq!(step.record_http_error, Some(429));
    match s.last_error {
        Some(GratError::RpcError(m)) => assert_eq!(m, "Rate limited (attempt 0)"),
        _ => panic!("expected a recorded error"),
    }
}

#[test]
fn transport_failures_are_retried() {
    let state = begin();
    let (s, step) = next_step::<Json>(state, CallEvent::SendFailed("connection refused".to_string()));
    assert!(matches!(step.action, CallAction::Send { attempt: 1, delay_ms: 200 }));
    match s.last_error {
        Some(GratError::RpcError(m)) => assert_eq!(m, "HTTP request failed: connection refused"),
        _ => panic!("expected a recorded error"),
    }
}

#[test]
fn client_errors_end_the_call_with_the_body() {
    let state = begin();
    let (state, step) = next_step::<Json>(state, CallEvent::Status(400));
    assert!(matches!(step.action, CallAction::ReadBody));
    let (_, step) = next_step::<Json>(
        state,
        CallEvent::Body { status: 400, body: "bad".to_string(), parsed: Err("ignored".to_string()) },
    );
    match step.action {
        CallAction::Finish(Err(GratError::RpcError(m))) => {
            assert_eq!(m, "RPC request failed with HTTP 400 Bad Request: bad")
        }
        _ => panic!("expected the call to end"),
    }
}

fn envelope(result: Option<Json>, error: Option<JsonRpcError>) -> JsonRpcResponse<Json> {
    JsonRpcResponse { jsonrpc: "2.0".to_string(), id: 1, result, error }
}

#[test]
fn successful_body_gives_the_result_or_the_error() {
    let (state, _) = next_step::<Json>(begin(), CallEvent::Status(200));
    let (_, step) = next_step(
        state,
        CallEvent::Body { status: 200, body: String::new(), parsed: Ok(envelope(Some(Json::Number(7)), None)) },
    );
    assert!(matches!(step.action, CallAction::Finish(Ok(Json::Number(7)))));

    let err = JsonRpcError { code: -32000, message: "not found".to_string() };
    let (_, step) = next_step(
        CallState { attempt: 0, last_error: None },
        CallEvent::Body { status: 200, body: String::new(), parsed: Ok(envelope(None, Some(err.clone()))) },
    );
    match step.action {
        CallAction::Finish(Err(GratError::JsonRpc(e))) => assert_eq!(e, err),
        _ => panic!("expected a JSON-RPC error"),
    }

    let (_, step) = next_step::<Json>(
        CallState { attempt: 0, last_error: None },
        CallEvent::Body { status: 200, body: String::new(), parsed: Ok(envelope(None, None)) },
    );
    match step.action {
        CallAction::Finish(Err(GratError::RpcError(m))) => assert_eq!(m, "Empty result in RPC response"),
        _ => panic!("expected an empty-result error"),
    }
}

#[test]
fn unreadable_body_ends_the_call() {
    let (_, step) = next_step::<Json>(
        CallState { attempt: 1, last_error: None },
        CallEvent::BodyReadFailed("reset".to_string()),
    );
    match step.action {
        CallAction::Finish(Err(GratError::RpcError(m))) => assert_eq!(m, "Failed to read response body: reset"),
        _ => panic!("expected the call to end"),
    }
}

#[test]
fn transport_retries_rate_limits_only() {
    let state = TransportState { attempt: 0, max_retries: 2, last_error: None };
    let (state, action) = transport_step::<Json>(state, TransportEvent::Body { status: 429, parsed: Err(String::new()) });
    assert!(matches!(action, TransportAction::Send { attempt: 1, delay_ms: 200 }));
    let (state, action) = transport_step::<Json>(state, TransportEvent::SendFailed("down".to_string()));
    assert!(matches!(action, TransportAction::Send { attempt: 2, delay_ms: 400 }));
    let (_, action) = transport_step::<Json>(state, TransportEvent::SendFailed("down".to_string()));
    match action {
        TransportAction::Finish(Err(GratError::RpcError(m))) => assert_eq!(m, "request failed: down"),
        _ => panic!("expected the call to end"),
    }
    let (_, action) = transport_step::<Json>(
        TransportState { attempt: 0, max_retries: 2, last_error: None },
        TransportEvent::Body { status: 500, parsed: Err("eof".to_string()) },
    );
    match action {
        TransportAction::Finish(Err(GratError::RpcError(m))) => assert_eq!(m, "response parse error: eof"),
        _ => panic!("expected the call to end"),
    }
    assert_eq!(transport_backoff_millis(3), 800);
}

fn keys(n: usize) -> Vec<String> {
    (0..n).map(|i| format!("key-{i}")).collect()
}

#[test]
fn ledger_keys_are_batched_by_hundred() {
    let chunks = ledger_key_chunks(&keys(205));
    assert_eq!(chunks.len(), 3);
    assert_eq!(chunks[0].len(), 100);
    assert_eq!(chunks[1].len(), 100);
    assert_eq!(chunks[2], vec!["key-200", "key-201", "key-202", "key-203", "key-204"]);
    assert_eq!(ledger_key_chunks(&keys(0)), vec![Vec::<String>::new()]);
    assert_eq!(ledger_key_chunks(&keys(100)).len(), 1);
}

fn entries_answer(latest: i128, entries: Vec<&str>) -> Json {
    Json::Object(vec![
        JsonMember {
            key: "entries".to_string(),
            value: Json::Array(
                entries
                    .into_iter()
                    .map(|e| Json::Object(vec![JsonMember { key: "key".to_string(), value: Json::String(e.to_string()) }]))
                    .collect(),
            ),
        },
        JsonMember { key: "latestLedger".to_string(), value: Json::Number(latest) },
    ])
}

#[test]
fn ledger_entry_answers_are_combined_in_order() {
    let mut combined = entries_answer(101, vec!["entry-1"]);
    append_ledger_entries(&mut combined, entries_answer(102, vec!["entry-2"])).unwrap();
    append_ledger_entries(&mut combined, entries_answer(103, vec!["entry-3"])).unwrap();
    assert_eq!(combined, entries_answer(101, vec!["entry-1", "entry-2", "entry-3"]));
}

#[test]
fn answer_without_entries_is_refused() {
    let mut combined = entries_answer(101, vec!["entry-1"]);
    let bad = Json::Object(vec![JsonMember { key: "latestLedger".to_string(), value: Json::Number(5) }]);
    match append_ledger_entries(&mut combined, bad) {
        Err(GratError::RpcError(m)) => assert_eq!(m, "getLedgerEntries response is missing an entries array"),
        _ => panic!("expected an error"),
    }
    assert_eq!(combined, entries_answer(101, vec!["entry-1"]));
}

#[test]
fn one_server_error_then_success_gives_the_result() {
    let (state, step) = next_step::<Json>(begin(), CallEvent::Status(500));
    assert!(matches!(step.action, CallAction::Send { attempt: 1, delay_ms: 200 }));
    let (state, step) = next_step::<Json>(state, CallEvent::Status(200));
    assert_eq!(step.record_http_error, None);
    assert!(matches!(step.action, CallAction::ReadBody));
    let (_, step) = next_step(
        state,
        CallEvent::Body { status: 200, body: String::new(), parsed: Ok(envelope(Some(Json::Bool(true)), None)) },
    );
    assert!(matches!(step.action, CallAction::Finish(Ok(Json::Bool(true)))));
}

#[test]
fn bad_gateway_and_unavailable_are_retried() {
    for status in [502u16, 503u16] {
        let (s, step) = next_step::<Json>(begin(), CallEvent::Status(status));
        assert_eq!(step.record_http_error, Some(status));
        assert!(matches!(step.action, CallAction::Send { attempt: 1, delay_ms: 200 }));
        assert!(matches!(s.last_error, Some(GratError::RpcError(_))));
    }
}

#[test]
fn transport_with_many_retries_succeeds_at_once() {
    let state = TransportState { attempt: 0, max_retries: 60, last_error: None };
    let (state, action) = transport_step::<Json>(state, TransportEvent::Begin);
    assert!(matches!(action, TransportAction::Send { attempt: 0, delay_ms: 0 }));
    let (_, action) = transport_step(
        state,
        TransportEvent::Body { status: 200, parsed: Ok(envelope(Some(Json::Number(5)), None)) },
    );
    assert!(matches!(action, TransportAction::Finish(Ok(Json::Number(5)))));
}
