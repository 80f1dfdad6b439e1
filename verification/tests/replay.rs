use prism_core::error::GratError;
use prism_core::json::{Json, JsonMember};
use prism_core::replay::differ::compute_diff;
use prism_core::replay::profiler::generate_profile;
use prism_core::replay::sandbox::{execute_with_tracing, SandboxResult};
use prism_core::replay::state::{
    choose_reconstruction_path, latest_sequence, reconstruct_from, LedgerState, ReconstructionPath, StateEntry,
};
use prism_core::rpc::client::{GetTransactionResponse, TransactionStatus};
use prism_core::types::trace::DiffChangeType;

fn entry(key: &str, value: &[u8]) -> StateEntry {
    StateEntry { key: key.to_string(), value: value.to_vec() }
}

fn result_with(final_state: Vec<StateEntry>) -> SandboxResult {
    SandboxResult { success: true, events: vec![], final_state, total_cpu: 10, total_memory: 20 }
}

#[test]
fn diff_classifies_every_entry() {
    let pre = LedgerState {
        ledger_sequence: 7,
        entries: vec![entry("a", &[1, 2]), entry("b", &[3]), entry("c", &[4])],
        reconstruction_path: ReconstructionPath::HotPath,
    };
    let result = result_with(vec![entry("c", &[4]), entry("a", &[1, 9]), entry("d", &[0xff, 0, 1])]);
    let diff = compute_diff(&pre, &result).unwrap();
    let kinds: Vec<(String, DiffChangeType)> = diff.entries.iter().map(|d| (d.key.clone(), d.change_type)).collect();
    assert_eq!(
        kinds,
        vec![
            ("a".to_string(), DiffChangeType::Updated),
            ("b".to_string(), DiffChangeType::Deleted),
            ("c".to_string(), DiffChangeType::Unchanged),
            ("d".to_string(), DiffChangeType::Created),
        ]
    );
    assert_eq!(diff.entries[0].before, Some("0102".to_string()));
    assert_eq!(diff.entries[0].after, Some("0109".to_string()));
    assert_eq!(diff.entries[1].after, None);
    assert_eq!(diff.entries[3].before, None);
    assert_eq!(diff.entries[3].after, Some("ff0001".to_string()));

    let profile = generate_profile(&result, &diff).unwrap();
    assert_eq!(profile.total_write_bytes, 2 + 3);
    assert_eq!(profile.total_read_bytes, 2 + 1 + 1);
    assert_eq!(profile.total_cpu, 10);
    assert_eq!(profile.total_memory, 20);
    assert_eq!(profile.cpu_limit, 0);
    assert!(profile.warnings.is_empty());
}

#[test]
fn state_compared_with_itself_is_unchanged() {
    let entries = vec![entry("x", &[1]), entry("y", &[2])];
    let pre = LedgerState { ledger_sequence: 1, entries: entries.clone(), reconstruction_path: ReconstructionPath::ColdPath };
    let diff = compute_diff(&pre, &result_with(entries)).unwrap();
    assert!(diff.entries.iter().all(|d| d.change_type == DiffChangeType::Unchanged));
    assert_eq!(diff.entries.len(), 2);
}

#[test]
fn recent_transactions_take_the_hot_path() {
    assert_eq!(choose_reconstruction_path(100, 50_100), ReconstructionPath::HotPath);
    assert_eq!(choose_reconstruction_path(100, 50_101), ReconstructionPath::ColdPath);
    assert_eq!(choose_reconstruction_path(500, 100), ReconstructionPath::HotPath);
}

fn tx(ledger: Option<u32>) -> GetTransactionResponse {
    GetTransactionResponse {
        status: TransactionStatus::Failed,
        latest_ledger: 0,
        latest_ledger_close_time: None,
        oldest_ledger: None,
        oldest_ledger_close_time: None,
        ledger,
        created_at: None,
        application_order: None,
        fee_bump: None,
        envelope_xdr: None,
        result_xdr: None,
        result_meta_xdr: None,
    }
}

fn latest(seq: i128) -> Json {
    Json::Object(vec![JsonMember { key: "sequence".to_string(), value: Json::Number(seq) }])
}

#[test]
fn reconstruction_reads_the_latest_sequence() {
    assert_eq!(latest_sequence(&latest(123)), 123);
    assert_eq!(latest_sequence(&latest(-1)), 0);
    assert_eq!(latest_sequence(&latest(0x1_0000_0005)), 5);
    assert_eq!(latest_sequence(&Json::Null), 0);
    let state = reconstruct_from(&tx(Some(10)), &latest(100_000)).unwrap();
    assert_eq!(state.ledger_sequence, 10);
    assert_eq!(state.reconstruction_path, ReconstructionPath::ColdPath);
    assert!(state.entries.is_empty());
    match reconstruct_from(&tx(None), &latest(1)) {
        Err(GratError::ReplayError(m)) => assert_eq!(m, "Cannot determine transaction ledger"),
        _ => panic!("expected a replay error"),
    }
}

#[test]
fn sandbox_is_not_available() {
    let state = LedgerState { ledger_sequence: 1, entries: vec![], reconstruction_path: ReconstructionPath::HotPath };
    match execute_with_tracing(&state, "abc") {
        Err(GratError::ReplayError(m)) => assert!(m.starts_with("Sandbox execution not yet implemented")),
        _ => panic!("expected a replay error"),
    }
}
