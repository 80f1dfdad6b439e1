use prism_core::decode::cross_contract::{attribute_failure, attribution_for_events, bytes_to_hex, process_event, CallFrame};
use prism_core::decode::diagnostic::{diagnostic_event_strings, enrich_report, record_attribution};
use prism_core::json::{Json, JsonMember};
use prism_core::types::report::DiagnosticReport;
use prism_core::xdr::{ContractEventType, DiagnosticEvent, ScValue};
use stellar_xdr::curr as sx;
use stellar_xdr::curr::WriteXdr;

fn sym(s: &str) -> ScValue {
    ScValue::Symbol(s.as_bytes().to_vec())
}

fn event(contract: u8, event_type: ContractEventType, ok: bool, topics: Vec<ScValue>) -> DiagnosticEvent {
    DiagnosticEvent { in_successful_contract_call: ok, contract_id: Some([contract; 32]), event_type, topics }
}

fn call(contract: u8, function: &str) -> DiagnosticEvent {
    event(contract, ContractEventType::Diagnostic, true, vec![sym("fn_call"), sym(function)])
}

fn ret(contract: u8) -> DiagnosticEvent {
    event(contract, ContractEventType::Diagnostic, true, vec![sym("fn_return")])
}

fn fail(contract: u8) -> DiagnosticEvent {
    event(contract, ContractEventType::Diagnostic, false, vec![sym("error"), ScValue::U32(5)])
}

#[test]
fn failure_inside_a_nested_call_is_attributed() {
    let events = vec![call(1, "outer"), call(2, "inner"), fail(2), ret(2), ret(1)];
    let a = attribution_for_events(&events).expect("attribution");
    assert_eq!(a.contract_address, bytes_to_hex(&[2; 32]));
    assert_eq!(a.function_name, Some("inner".to_string()));
    assert_eq!(a.call_depth, 1);
    assert_eq!(
        a.origin_description,
        format!("Failure originated in contract {} at function `inner` (call depth 1)", "02".repeat(32))
    );
}

#[test]
fn failure_at_top_level_is_not_attributed() {
    let events = vec![call(1, "only"), fail(1)];
    assert!(attribution_for_events(&events).is_none());
    assert!(attribution_for_events(&vec![]).is_none());
}

#[test]
fn first_failure_is_kept() {
    let events = vec![call(1, "a"), call(2, "b"), fail(2), ret(2), call(3, "c"), fail(3)];
    let a = attribution_for_events(&events).expect("attribution");
    assert_eq!(a.function_name, Some("b".to_string()));
}

#[test]
fn call_stack_tracks_depth() {
    let mut stack: Vec<CallFrame> = Vec::new();
    let mut failure = None;
    process_event(&call(1, "f"), &mut stack, &mut failure);
    process_event(&call(2, "g"), &mut stack, &mut failure);
    assert_eq!(stack.len(), 2);
    assert_eq!(stack[1].depth, 1);
    process_event(&ret(2), &mut stack, &mut failure);
    assert_eq!(stack.len(), 1);
    process_event(&ret(1), &mut stack, &mut failure);
    process_event(&ret(1), &mut stack, &mut failure);
    assert!(stack.is_empty());
    assert!(failure.is_none());
}

#[test]
fn failed_system_event_records_a_failure() {
    let mut stack: Vec<CallFrame> = Vec::new();
    let mut failure = None;
    process_event(&call(1, "f"), &mut stack, &mut failure);
    let sys = event(4, ContractEventType::System, false, vec![sym("boom")]);
    process_event(&sys, &mut stack, &mut failure);
    let f = failure.expect("failure");
    assert_eq!(f.function_name, Some("f".to_string()));
    assert_eq!(f.depth, 0);
}

#[test]
fn report_gets_the_attribution() {
    let mut report = DiagnosticReport::new("budget", 0, "CpuLimitExceeded", "s");
    record_attribution(&mut report, &vec![call(1, "outer"), call(2, "inner"), fail(2)]).unwrap();
    assert_eq!(report.cross_contract_attribution.unwrap().call_depth, 1);
}

#[test]
fn diagnostic_event_strings_are_listed() {
    let tx = Json::Object(vec![JsonMember {
        key: "diagnosticEventsXdr".to_string(),
        value: Json::Array(vec![Json::String("AAAA".to_string()), Json::Number(1), Json::String("BBBB".to_string())]),
    }]);
    assert_eq!(diagnostic_event_strings(&tx), vec!["AAAA", "BBBB"]);
    assert!(diagnostic_event_strings(&Json::Null).is_empty());
    let mut report = DiagnosticReport::new("budget", 0, "n", "s");
    let before = report.clone();
    enrich_report(&mut report, &tx).unwrap();
    assert_eq!(report, before);
}

fn xdr_event(contract: u8, type_: sx::ContractEventType, ok: bool, topics: Vec<sx::ScVal>) -> String {
    let event = sx::DiagnosticEvent {
        in_successful_contract_call: ok,
        event: sx::ContractEvent {
            ext: sx::ExtensionPoint::V0,
            contract_id: Some(sx::Hash([contract; 32])),
            type_,
            body: sx::ContractEventBody::V0(sx::ContractEventV0 { topics: topics.try_into().unwrap(), data: sx::ScVal::Void }),
        },
    };
    event.to_xdr_base64(sx::Limits::none()).unwrap()
}

fn xdr_sym(s: &str) -> sx::ScVal {
    sx::ScVal::Symbol(sx::ScSymbol(s.try_into().unwrap()))
}

fn tx_with_events(events: Vec<Json>) -> Json {
    Json::Object(vec![JsonMember { key: "diagnosticEventsXdr".to_string(), value: Json::Array(events) }])
}

#[test]
fn failure_is_attributed_from_the_transaction_events() {
    let d = sx::ContractEventType::Diagnostic;
    let events = vec![
        Json::String(xdr_event(1, d, true, vec![xdr_sym("fn_call"), xdr_sym("outer")])),
        Json::String("not an event".to_string()),
        Json::Number(7),
        Json::String(xdr_event(2, d, true, vec![xdr_sym("fn_call"), xdr_sym("inner")])),
        Json::String(xdr_event(2, d, false, vec![xdr_sym("error"), sx::ScVal::U32(5)])),
    ];
    let mut report = DiagnosticReport::new("budget", 0, "CpuLimitExceeded", "s");
    attribute_failure(&mut report, &tx_with_events(events)).unwrap();
    let a = report.cross_contract_attribution.expect("attribution");
    assert_eq!(a.contract_address, "02".repeat(32));
    assert_eq!(a.function_name, Some("inner".to_string()));
    assert_eq!(a.call_depth, 1);
    assert_eq!(a.origin_description, format!("Failure originated in contract {} at function `inner` (call depth 1)", "02".repeat(32)));
    assert_eq!(report.error_category, "budget");
}

#[test]
fn top_level_failure_leaves_the_report_as_it_was() {
    let d = sx::ContractEventType::Diagnostic;
    let events = vec![
        Json::String(xdr_event(1, d, true, vec![xdr_sym("fn_call"), xdr_sym("only")])),
        Json::String(xdr_event(1, d, false, vec![xdr_sym("panic")])),
    ];
    let mut report = DiagnosticReport::new("budget", 0, "n", "s");
    let before = report.clone();
    attribute_failure(&mut report, &tx_with_events(events)).unwrap();
    assert_eq!(report, before);
    attribute_failure(&mut report, &Json::Null).unwrap();
    assert_eq!(report, before);
}
