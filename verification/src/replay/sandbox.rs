//! Results of sandboxed execution with tracing.

use vstd::prelude::*;
use crate::error::{GratError, GratResult};
use crate::json::Json;
use crate::replay::state::{LedgerState, StateEntry};

verus! {

/// The kinds of trace events.
#[derive(Debug, Clone, Copy, PartialEq, Eq)]
pub enum TraceEventType {
    InvocationStart,
    InvocationEnd,
    HostFunctionCall,
    HostFunctionReturn,
    StorageRead,
    StorageWrite,
    AuthCheck,
    EventEmit,
    BudgetCheckpoint,
}

/// A trace event emitted during sandboxed execution.
#[derive(Debug)]
pub struct TraceEvent {
    pub event_type: TraceEventType,
    /// Microseconds since the start of execution.
    pub timestamp_us: u64,
    pub data: Json,
}

/// The raw result of a sandboxed execution.
#[derive(Debug)]
pub struct SandboxResult {
    pub success: bool,
    pub events: Vec<TraceEvent>,
    /// The ledger entries after execution.
    pub final_state: Vec<StateEntry>,
    pub total_cpu: u64,
    pub total_memory: u64,
}

/// Executes a transaction in the sandbox with full tracing. The sandbox is
/// not available yet: every call fails with a replay error saying so.
pub fn execute_with_tracing(state: &LedgerState, tx_hash: &str) -> (r: GratResult<SandboxResult>)
    ensures
        r matches Err(GratError::ReplayError(m))
            && m@ == "Sandbox execution not yet implemented. Requires soroban-env-host instrumentation."@,
{
    Err(GratError::ReplayError(String::from_str(
        "Sandbox execution not yet implemented. Requires soroban-env-host instrumentation.",
    )))
}

} // verus!
