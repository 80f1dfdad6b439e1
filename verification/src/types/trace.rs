//! Ledger state differences and resource profiles of a replayed execution.

use vstd::prelude::*;
use crate::replay::sandbox::TraceEvent;

verus! {

/// How a ledger entry changed during execution.
#[derive(Debug, Clone, Copy, PartialEq, Eq)]
pub enum DiffChangeType {
    Created,
    Updated,
    Deleted,
    Unchanged,
}

/// The change of one ledger entry, its values as lowercase hex.
#[derive(Debug, Clone, PartialEq, Eq)]
pub struct LedgerEntryDiff {
    pub key: String,
    pub before: Option<String>,
    pub after: Option<String>,
    pub change_type: DiffChangeType,
}

/// The changes of all ledger entries touched by an execution.
#[derive(Debug, Clone, PartialEq, Eq)]
pub struct StateDiff {
    pub entries: Vec<LedgerEntryDiff>,
}

/// Resource consumption of an execution against its limits.
#[derive(Debug, Clone, PartialEq, Eq)]
pub struct ResourceProfile {
    pub total_cpu: u64,
    pub cpu_limit: u64,
    pub total_memory: u64,
    pub memory_limit: u64,
    pub total_read_bytes: u64,
    pub total_write_bytes: u64,
    pub read_limit: u64,
    pub write_limit: u64,
    pub hotspots: Vec<String>,
    pub warnings: Vec<String>,
}

/// The trace of one execution: its events in order.
#[derive(Debug)]
pub struct ExecutionTrace {
    pub events: Vec<TraceEvent>,
}

} // verus!
