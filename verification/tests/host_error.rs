use stellar_xdr::curr as sx;
use stellar_xdr::curr::WriteXdr;
use prism_core::decode::host_error::{self, HostError};
use prism_core::decode::hosterror::{self, from_transaction_result, parse_error_category};
use prism_core::error::GratError;
use prism_core::json::{Json, JsonMember};
use prism_core::taxonomy::schema::ErrorCategory;
use prism_core::xdr::{
    InvokeOutcome, OperationResult, TransactionResult, TransactionResultResult,
};

fn make_tx_result(ihf: InvokeOutcome) -> TransactionResult {
    TransactionResult {
        fee_charged: 100,
        result: TransactionResultResult::TxFailed(vec![OperationResult::InvokeHostFunction(ihf)]),
    }
}

#[test]
fn host_error_test_category_name() {
    assert_eq!(HostError::Budget { code: 1 }.category_name(), "Budget");
    assert_eq!(HostError::Storage { code: 2 }.category_name(), "Storage");
    assert_eq!(HostError::Auth { code: 3 }.category_name(), "Auth");
    assert_eq!(HostError::Context { code: 0 }.category_name(), "Context");
    assert_eq!(HostError::Value { code: 0 }.category_name(), "Value");
    assert_eq!(HostError::Object { code: 0 }.category_name(), "Object");
    assert_eq!(HostError::Crypto { code: 0 }.category_name(), "Crypto");
    assert_eq!(HostError::Contract { code: 0 }.category_name(), "Contract");
    assert_eq!(HostError::Wasm { code: 0 }.category_name(), "Wasm");
    assert_eq!(HostError::Events { code: 0 }.category_name(), "Events");
    assert_eq!(
        HostError::ContractSpecific { contract_id: None, code: 42 }.category_name(),
        "ContractSpecific"
    );
    assert_eq!(
        HostError::Unknown { type_code: 99, sub_code: 1 }.category_name(),
        "Unknown"
    );
}

#[test]
fn host_error_test_parse_error_category() {
    assert_eq!(host_error::parse_error_category("budget"), Some(ErrorCategory::Budget));
    assert_eq!(host_error::parse_error_category("STORAGE"), Some(ErrorCategory::Storage));
    assert_eq!(host_error::parse_error_category("unknown_xyz"), None);
}

#[test]
fn hosterror_test_category_name() {
    assert_eq!(hosterror::HostError::Budget { code: 1 }.category_name(), "Budget");
    assert_eq!(hosterror::HostError::Storage { code: 2 }.category_name(), "Storage");
    assert_eq!(hosterror::HostError::Auth { code: 3 }.category_name(), "Auth");
    assert_eq!(hosterror::HostError::Context { code: 0 }.category_name(), "Context");
    assert_eq!(hosterror::HostError::Value { code: 0 }.category_name(), "Value");
    assert_eq!(hosterror::HostError::Object { code: 0 }.category_name(), "Object");
    assert_eq!(hosterror::HostError::Crypto { code: 0 }.category_name(), "Crypto");
    assert_eq!(hosterror::HostError::Contract { code: 0 }.category_name(), "Contract");
    assert_eq!(hosterror::HostError::Wasm { code: 0 }.category_name(), "Wasm");
    assert_eq!(hosterror::HostError::Events { code: 0 }.category_name(), "Events");
    assert_eq!(
        hosterror::HostError::ContractSpecific { contract_id: None, code: 42 }.category_name(),
        "ContractSpecific"
    );
    assert_eq!(
        hosterror::HostError::Unknown { type_code: 99, sub_code: 1 }.category_name(),
        "Unknown"
    );
}

#[test]
fn hosterror_test_parse_error_category() {
    assert_eq!(parse_error_category("budget"), Some(ErrorCategory::Budget));
    assert_eq!(parse_error_category("STORAGE"), Some(ErrorCategory::Storage));
    assert_eq!(parse_error_category("unknown_xyz"), None);
}

#[test]
fn test_summary_known_codes() {
    assert_eq!(HostError::Budget { code: 0 }.summary(), "[BUDGET] CPUExceeded");
    assert_eq!(HostError::Storage { code: 0 }.summary(), "[STORAGE] AccessDenied");
    assert_eq!(HostError::Auth { code: 0 }.summary(), "[AUTH] InvalidAction");
    assert_eq!(HostError::Context { code: 0 }.summary(), "[CONTEXT] UnknownError");
    assert_eq!(HostError::Value { code: 0 }.summary(), "[VALUE] UnknownError");
    assert_eq!(HostError::Object { code: 0 }.summary(), "[OBJECT] UnknownError");
    assert_eq!(HostError::Crypto { code: 0 }.summary(), "[CRYPTO] InvalidInput");
    assert_eq!(HostError::Contract { code: 0 }.summary(), "[CONTRACT] ContractError");
    assert_eq!(HostError::Wasm { code: 0 }.summary(), "[WASM] InvalidModule");
    assert_eq!(HostError::Events { code: 0 }.summary(), "[EVENTS] ArithDomain");
}

#[test]
fn test_summary_contract_specific_with_id() {
    let s = HostError::ContractSpecific { contract_id: Some("CABC123".to_string()), code: 3 }.summary();
    assert!(s.contains("CABC123"));
    assert!(s.contains('3'));
}

#[test]
fn test_summary_contract_specific_no_id() {
    let s = HostError::ContractSpecific { contract_id: None, code: 7 }.summary();
    assert!(s.contains("unknown"));
    assert!(s.contains('7'));
}

#[test]
fn test_summary_unknown_variant() {
    let s = HostError::Unknown { type_code: 9, sub_code: 42 }.summary();
    assert_eq!(s, "[UNKNOWN] 9:42");
}

#[test]
fn test_summary_unknown_codes_fallback() {
    let s = HostError::Budget { code: 99 }.summary();
    assert!(s.contains("99"));
    assert!(s.contains("BUDGET"));
}

#[test]
fn test_summary_under_80_chars() {
    let errors = vec![
        HostError::Budget { code: 0 },
        HostError::Storage { code: 0 },
        HostError::Auth { code: 0 },
        HostError::Context { code: 0 },
        HostError::Value { code: 0 },
        HostError::Object { code: 0 },
        HostError::Crypto { code: 0 },
        HostError::Contract { code: 0 },
        HostError::Wasm { code: 0 },
        HostError::Events { code: 0 },
    ];
    for err in errors {
        let summary = err.summary();
        assert!(summary.len() <= 80, "Summary too long ({} chars): {}", summary.len(), summary);
    }
}

#[test]
fn test_from_transaction_result_trapped() {
    let result = make_tx_result(InvokeOutcome::Trapped);
    let classified = from_transaction_result(result).unwrap();
    assert_eq!(classified.category, ErrorCategory::Contract);
    assert!(!classified.is_contract_error);
}

#[test]
fn test_from_transaction_result_resource_limit() {
    let result = make_tx_result(InvokeOutcome::ResourceLimitExceeded);
    let classified = from_transaction_result(result).unwrap();
    assert_eq!(classified.category, ErrorCategory::Budget);
}

#[test]
fn test_from_transaction_result_entry_archived() {
    let result = make_tx_result(InvokeOutcome::EntryArchived);
    let classified = from_transaction_result(result).unwrap();
    assert_eq!(classified.category, ErrorCategory::Storage);
}

#[test]
fn test_from_transaction_result_success_returns_error() {
    let tx_result = TransactionResult { fee_charged: 100, result: TransactionResultResult::TxSuccess(vec![]) };
    assert!(matches!(from_transaction_result(tx_result), Err(GratError::TransactionSucceeded)));
}

#[test]
fn test_from_transaction_result_no_ihf_returns_error() {
    let tx_result = TransactionResult { fee_charged: 100, result: TransactionResultResult::TxFailed(vec![]) };
    assert!(matches!(from_transaction_result(tx_result), Err(GratError::NotSorobanTransaction)));
}

#[test]
fn test_from_transaction_result_ihf_success_returns_error() {
    let result = make_tx_result(InvokeOutcome::Success([0; 32]));
    assert!(matches!(from_transaction_result(result), Err(GratError::TransactionSucceeded)));
}

#[test]
fn first_invoke_result_decides_after_other_operations() {
    let tx_result = TransactionResult {
        fee_charged: 5,
        result: TransactionResultResult::TxFailed(vec![
            OperationResult::Other,
            OperationResult::InvokeHostFunction(InvokeOutcome::Malformed),
            OperationResult::InvokeHostFunction(InvokeOutcome::Trapped),
        ]),
    };
    assert_eq!(from_transaction_result(tx_result).unwrap().category, ErrorCategory::Context);
}

#[test]
fn fee_bump_outcomes_are_classified() {
    let inner_ok = TransactionResult { fee_charged: 1, result: TransactionResultResult::TxFeeBumpInnerSuccess };
    assert!(matches!(from_transaction_result(inner_ok), Err(GratError::TransactionSucceeded)));
    let other = TransactionResult { fee_charged: 1, result: TransactionResultResult::Other };
    assert!(matches!(from_transaction_result(other), Err(GratError::NotSorobanTransaction)));
}

fn status_object(status: &str) -> Json {
    Json::Object(vec![JsonMember { key: "status".to_string(), value: Json::String(status.to_string()) }])
}

#[test]
fn classify_successful_transaction_is_an_error() {
    let tx = status_object("SUCCESS");
    assert!(matches!(hosterror::classify_error(&tx), Err(GratError::TransactionSucceeded)));
    match host_error::classify_error(&tx) {
        Err(GratError::Internal(m)) => assert_eq!(m, "Transaction succeeded — no error to classify"),
        other => panic!("unexpected {other:?}"),
    }
}

#[test]
fn classify_failed_transaction_keeps_raw_data() {
    let tx = status_object("FAILED");
    let c = host_error::classify_error(&tx).unwrap();
    assert_eq!(c.category, ErrorCategory::Contract);
    assert_eq!(c.raw_data, status_object("FAILED"));
    let c2 = hosterror::classify_error(&tx).unwrap();
    assert_eq!(c2.category, ErrorCategory::Contract);
    assert_eq!(c2.error_code, 0);
    assert_eq!(c2.raw_data, status_object("FAILED"));
}

#[test]
fn classify_reads_result_xdr() {
    let tx_result = sx::TransactionResult {
        fee_charged: 100,
        result: sx::TransactionResultResult::TxFailed(
            vec![sx::OperationResult::OpInner(sx::OperationResultTr::InvokeHostFunction(
                sx::InvokeHostFunctionResult::ResourceLimitExceeded,
            ))]
            .try_into()
            .unwrap(),
        ),
        ext: sx::TransactionResultExt::V0,
    };
    let b64 = tx_result.to_xdr_base64(sx::Limits::none()).unwrap();
    let tx = Json::Object(vec![
        JsonMember { key: "resultXdr".to_string(), value: Json::String(b64) },
        JsonMember { key: "status".to_string(), value: Json::String("FAILED".to_string()) },
    ]);
    let c = hosterror::classify_error(&tx).unwrap();
    assert_eq!(c.category, ErrorCategory::Budget);
}
