use stellar_xdr::curr as sx;
use stellar_xdr::curr::WriteXdr;
use prism_core::cli::build_raw_xdr_report;
use prism_core::cache::store::{check_entry_size, max_size_bytes, CacheCategory};
use prism_core::debugger::stepping::{ExecutionStepper, StepCommand};
use prism_core::debugger::whatif::{simulate_whatif, WhatIfPatch};
use prism_core::decode::{classify_and_report, filter_transaction_by_operation, json_set, parse_v3_metadata};
use prism_core::error::GratError;
use prism_core::json::{to_json_text, Json, JsonMember};
use prism_core::types::network::NetworkConfig;
use prism_core::types::report::{raw_xdr_report, Severity};

#[test]
fn cache_categories_have_directories() {
    assert_eq!(CacheCategory::WasmBlob.as_str(), "wasm");
    assert_eq!(CacheCategory::ContractSpec.as_str(), "spec");
    assert_eq!(CacheCategory::LedgerEntry.as_str(), "ledger");
    assert_eq!(CacheCategory::TransactionResult.as_str(), "tx");
}

#[test]
fn cache_size_limit_is_enforced() {
    assert_eq!(max_size_bytes(10), 10 * 1024 * 1024);
    assert!(check_entry_size(5, 5).is_ok());
    match check_entry_size(5, 6) {
        Err(GratError::CacheError(m)) => assert_eq!(m, "Cache entry exceeds configured cache size limit of 5 bytes"),
        _ => panic!("expected a cache error"),
    }
}

#[test]
fn stepper_starts_unpaused() {
    let mut s = ExecutionStepper::new();
    assert!(!s.is_paused());
    assert!(s.current_state().is_none());
    assert!(s.step(StepCommand::StepInto).is_none());
    assert!(ExecutionStepper::default().current_state().is_none());
}

#[test]
fn whatif_is_not_available() {
    let patches = vec![WhatIfPatch::ModifyArgument { index: 0, new_value: "1".to_string() }];
    match simulate_whatif("tx", &patches, &NetworkConfig::testnet()) {
        Err(GratError::Internal(m)) => assert_eq!(m, "What-if simulation not yet implemented"),
        _ => panic!("expected an internal error"),
    }
}

#[test]
fn raw_report_counts_bytes() {
    let report = raw_xdr_report(3);
    assert_eq!(report.error_category, "raw-xdr");
    assert_eq!(report.error_name, "RawXdr");
    assert_eq!(report.summary, "Decoded raw XDR input from --raw");
    assert!(report.detailed_explanation.contains("3 bytes"));
    assert_eq!(report.severity, Severity::Info);
}

fn m(k: &str, v: Json) -> JsonMember {
    JsonMember { key: k.to_string(), value: v }
}

fn strs(items: &[&str]) -> Json {
    Json::Array(items.iter().map(|s| Json::String(s.to_string())).collect())
}

#[test]
fn events_are_narrowed_to_one_operation() {
    let tx = || {
        Json::Object(vec![
            m("diagnosticEventsXdr", strs(&["d0", "d1"])),
            m("events", Json::Object(vec![m("contractEventsXdr", strs(&["c0", "c1", "c2"]))])),
        ])
    };
    let mut first = tx();
    filter_transaction_by_operation(&mut first, 0).unwrap();
    assert_eq!(to_json_text(&first), r#"{"diagnosticEventsXdr":["d0"],"events":{"contractEventsXdr":["c0"]}}"#);
    let mut second = tx();
    filter_transaction_by_operation(&mut second, 2).unwrap();
    assert_eq!(to_json_text(&second), r#"{"diagnosticEventsXdr":[],"events":{"contractEventsXdr":["c2"]}}"#);
    let mut beyond = tx();
    filter_transaction_by_operation(&mut beyond, 7).unwrap();
    assert_eq!(to_json_text(&beyond), r#"{"diagnosticEventsXdr":[],"events":{"contractEventsXdr":[]}}"#);
}

#[test]
fn setting_a_member_keeps_keys_sorted() {
    let mut j = Json::Object(vec![m("a", Json::Null), m("c", Json::Null)]);
    json_set(&mut j, "b", Json::Number(1));
    json_set(&mut j, "a", Json::Bool(true));
    assert_eq!(to_json_text(&j), r#"{"a":true,"b":1,"c":null}"#);
}

#[test]
fn v3_metadata_injects_fee_and_events() {
    let result = sx::TransactionResult {
        fee_charged: 321,
        result: sx::TransactionResultResult::TxFailed(vec![].try_into().unwrap()),
        ext: sx::TransactionResultExt::V0,
    };
    let event = sx::ContractEvent {
        ext: sx::ExtensionPoint::V0,
        contract_id: None,
        type_: sx::ContractEventType::Contract,
        body: sx::ContractEventBody::V0(sx::ContractEventV0 { topics: vec![].try_into().unwrap(), data: sx::ScVal::U32(1) }),
    };
    let meta = sx::TransactionMeta::V3(sx::TransactionMetaV3 {
        ext: sx::ExtensionPoint::V0,
        tx_changes_before: sx::LedgerEntryChanges(vec![].try_into().unwrap()),
        operations: vec![].try_into().unwrap(),
        tx_changes_after: sx::LedgerEntryChanges(vec![].try_into().unwrap()),
        soroban_meta: Some(sx::SorobanTransactionMeta {
            ext: sx::SorobanTransactionMetaExt::V0,
            events: vec![event.clone()].try_into().unwrap(),
            return_value: sx::ScVal::Void,
            diagnostic_events: vec![].try_into().unwrap(),
        }),
    });
    let mut tx = Json::Object(vec![
        m("resultMetaXdr", Json::String(meta.to_xdr_base64(sx::Limits::none()).unwrap())),
        m("resultXdr", Json::String(result.to_xdr_base64(sx::Limits::none()).unwrap())),
    ]);
    parse_v3_metadata(&mut tx).unwrap();
    let event_b64 = event.to_xdr_base64(sx::Limits::none()).unwrap();
    let text = to_json_text(&tx);
    assert!(text.contains(r#""inclusionFee":321"#));
    assert!(text.contains(&format!(r#""events":{{"contractEventsXdr":["{event_b64}"]}}"#)));
    assert!(!text.contains("diagnosticEventsXdr"));
    assert!(!text.contains("returnValue"));
}

#[test]
fn raw_xdr_input_builds_a_local_report() {
    let report = build_raw_xdr_report("AAAA").expect("raw XDR should decode");

    assert_eq!(report.error_category, "raw-xdr");
    assert_eq!(report.error_name, "RawXdr");
    assert_eq!(report.summary, "Decoded raw XDR input from --raw");
    assert!(report.detailed_explanation.contains("3 bytes"));
}

#[test]
fn raw_xdr_input_that_is_not_base64_is_an_xdr_error() {
    match build_raw_xdr_report("not base64!") {
        Err(GratError::XdrError(m)) => assert!(!m.is_empty()),
        other => panic!("expected an XDR error, got {:?}", other.map(|r| r.summary)),
    }
}

#[test]
fn failed_transactions_are_classified_and_reported() {
    let mut tx = Json::Object(vec![
        m("diagnosticEventsXdr", strs(&["d0", "d1"])),
        m("status", Json::String("FAILED".to_string())),
    ]);
    let (error, report) = classify_and_report(&mut tx, Some(0)).expect("a failed transaction has an error");
    assert!(!error.is_contract_error);
    assert_eq!(error.error_code, 0);
    assert_eq!(to_json_text(&tx), r#"{"diagnosticEventsXdr":["d0"],"status":"FAILED"}"#);
    assert_eq!(to_json_text(&error.raw_data), to_json_text(&tx));
    assert_eq!(report.error_category, "Contract");
    assert_eq!(report.error_name, "Contract");
    assert_eq!(report.error_code, 0);
    assert_eq!(report.summary, "[CONTRACT] ContractError");
    assert_eq!(report.severity, Severity::Error);
}

#[test]
fn successful_transactions_have_no_error_to_report() {
    let mut tx = Json::Object(vec![m("status", Json::String("SUCCESS".to_string()))]);
    match classify_and_report(&mut tx, None) {
        Err(GratError::Internal(msg)) => assert_eq!(msg, "Transaction succeeded — no error to classify"),
        _ => panic!("a successful transaction has no error"),
    }
}

#[test]
fn v3_metadata_injects_a_non_void_return_value_and_v2_injects_nothing() {
    let v3 = sx::TransactionMeta::V3(sx::TransactionMetaV3 {
        ext: sx::ExtensionPoint::V0,
        tx_changes_before: sx::LedgerEntryChanges(vec![].try_into().unwrap()),
        operations: vec![].try_into().unwrap(),
        tx_changes_after: sx::LedgerEntryChanges(vec![].try_into().unwrap()),
        soroban_meta: Some(sx::SorobanTransactionMeta {
            ext: sx::SorobanTransactionMetaExt::V0,
            events: vec![].try_into().unwrap(),
            return_value: sx::ScVal::U32(7),
            diagnostic_events: vec![].try_into().unwrap(),
        }),
    });
    let mut tx = Json::Object(vec![m("resultMetaXdr", Json::String(v3.to_xdr_base64(sx::Limits::none()).unwrap()))]);
    parse_v3_metadata(&mut tx).unwrap();
    let rv = sx::ScVal::U32(7).to_xdr_base64(sx::Limits::none()).unwrap();
    assert!(to_json_text(&tx).contains(&format!(r#""returnValue":"{rv}""#)));
    assert!(!to_json_text(&tx).contains("events"));

    let v2 = sx::TransactionMeta::V2(sx::TransactionMetaV2 {
        tx_changes_before: sx::LedgerEntryChanges(vec![].try_into().unwrap()),
        operations: vec![].try_into().unwrap(),
        tx_changes_after: sx::LedgerEntryChanges(vec![].try_into().unwrap()),
    });
    let text = v2.to_xdr_base64(sx::Limits::none()).unwrap();
    let mut tx2 = Json::Object(vec![m("resultMetaXdr", Json::String(text.clone()))]);
    parse_v3_metadata(&mut tx2).unwrap();
    assert_eq!(to_json_text(&tx2), format!(r#"{{"resultMetaXdr":"{text}"}}"#));
}
