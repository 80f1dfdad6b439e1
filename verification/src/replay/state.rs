//! Historical ledger state, and the choice between reconstructing it from
//! the RPC node (recent transactions) and from history archives (older ones).

use vstd::prelude::*;
use crate::error::{GratError, GratResult};
use crate::json::{json_view, member_position, Json, JsonValue};
use crate::rpc::client::GetTransactionResponse;

verus! {

/// One ledger entry: its key and its XDR bytes.
#[derive(Debug, Clone, PartialEq, Eq)]
pub struct StateEntry {
    pub key: String,
    pub value: Vec<u8>,
}

/// The view of a ledger entry: key and bytes.
pub open spec fn state_entry_view(e: StateEntry) -> (Seq<char>, Seq<u8>) {
    (e.key@, e.value@)
}

/// The views of a sequence of ledger entries.
pub open spec fn entries_view(s: Seq<StateEntry>) -> Seq<(Seq<char>, Seq<u8>)> {
    s.map_values(|e: StateEntry| state_entry_view(e))
}

/// No key occurs twice.
pub open spec fn keys_distinct(s: Seq<(Seq<char>, Seq<u8>)>) -> bool {
    forall|i: int, j: int| 0 <= i < j < s.len() ==> #[trigger] s[i].0 != #[trigger] s[j].0
}

/// How the state was reconstructed.
#[derive(Debug, Clone, Copy, PartialEq, Eq)]
pub enum ReconstructionPath {
    /// From the Soroban RPC node (recent transaction).
    HotPath,
    /// From history archives (older transaction).
    ColdPath,
}

/// Reconstructed ledger state at a ledger sequence number.
#[derive(Debug, Clone)]
pub struct LedgerState {
    pub ledger_sequence: u32,
    pub entries: Vec<StateEntry>,
    pub reconstruction_path: ReconstructionPath,
}

/// Transactions at most this many ledgers old are reconstructed from the RPC node.
pub const HOT_PATH_THRESHOLD: u32 = 50_000;

/// The path for a transaction in ledger `tx_ledger` when the latest ledger
/// is `latest`: the hot path while the transaction is at most
/// `HOT_PATH_THRESHOLD` ledgers old (a transaction "newer" than the latest
/// ledger has age 0).
pub open spec fn path_for(tx_ledger: u32, latest: u32) -> ReconstructionPath {
    let age = if latest >= tx_ledger { latest - tx_ledger } else { 0 };
    if age <= HOT_PATH_THRESHOLD {
        ReconstructionPath::HotPath
    } else {
        ReconstructionPath::ColdPath
    }
}

/// Chooses how to reconstruct the state of a transaction.
pub fn choose_reconstruction_path(tx_ledger: u32, latest_ledger: u32) -> (p: ReconstructionPath)
    ensures
        p == path_for(tx_ledger, latest_ledger),
{
    let age = latest_ledger.saturating_sub(tx_ledger);
    if age <= HOT_PATH_THRESHOLD {
        ReconstructionPath::HotPath
    } else {
        ReconstructionPath::ColdPath
    }
}

/// The `sequence` of a `getLatestLedger` answer: its value when it is a
/// number that fits in 64 bits, taken modulo 2^32, and 0 otherwise.
pub open spec fn latest_sequence_of(v: JsonValue) -> u32 {
    match v {
        JsonValue::Object(m) => {
            let p = member_position(m, "sequence"@);
            if p >= 0 {
                match m[p].1 {
                    JsonValue::Number(n) => if 0 <= n <= u64::MAX {
                        (n % 0x1_0000_0000) as u32
                    } else {
                        0
                    },
                    _ => 0,
                }
            } else {
                0
            }
        },
        _ => 0,
    }
}

/// Reads the latest ledger sequence from a `getLatestLedger` answer.
pub fn latest_sequence(latest: &Json) -> (s: u32)
    ensures
        s == latest_sequence_of(json_view(*latest)),
{
    match latest {
        Json::Object(members) => {
            let pos = crate::json::find_member(members, "sequence");
            proof {
                crate::json::lemma_members_view_index(members@);
            }
            match pos {
                Some(p) => match &members[p].value {
                    Json::Number(n) => {
                        if 0 <= *n && *n <= u64::MAX as i128 {
                            (*n % 0x1_0000_0000) as u32
                        } else {
                            0
                        }
                    },
                    _ => 0,
                },
                None => 0,
            }
        },
        _ => 0,
    }
}

/// The state of the transaction's ledger, reconstructed along the chosen
/// path. Neither path fetches entries yet, so the state has none.
pub fn reconstruct_along(ledger_sequence: u32, path: ReconstructionPath) -> (s: LedgerState)
    ensures
        s.ledger_sequence == ledger_sequence,
        s.entries@.len() == 0,
        keys_distinct(entries_view(s.entries@)),
        s.reconstruction_path == path,
{
    LedgerState { ledger_sequence, entries: Vec::new(), reconstruction_path: path }
}

/// Reconstructs the ledger state of a transaction from its `getTransaction`
/// and `getLatestLedger` answers. A transaction without a ledger is an error.
pub fn reconstruct_from(tx: &GetTransactionResponse, latest: &Json) -> (r: GratResult<LedgerState>)
    ensures
        match tx.ledger {
            None => r matches Err(GratError::ReplayError(m)) && m@ == "Cannot determine transaction ledger"@,
            Some(l) => r matches Ok(s) && s.ledger_sequence == l && s.entries@.len() == 0
                && keys_distinct(entries_view(s.entries@)) && s.reconstruction_path == path_for(l, latest_sequence_of(json_view(*latest))),
        },
{
    match tx.ledger {
        None => Err(GratError::ReplayError(String::from_str("Cannot determine transaction ledger"))),
        Some(tx_ledger) => {
            let latest_ledger = latest_sequence(latest);
            let path = choose_reconstruction_path(tx_ledger, latest_ledger);
            Ok(reconstruct_along(tx_ledger, path))
        },
    }
}

} // verus!
