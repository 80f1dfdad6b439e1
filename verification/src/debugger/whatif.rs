//! What-if analysis: re-simulate an execution with modified inputs.

use vstd::prelude::*;
use crate::error::{GratError, GratResult};
use crate::types::network::NetworkConfig;
use crate::types::trace::ExecutionTrace;

verus! {

/// A change to the inputs or state of an execution.
#[derive(Debug, Clone)]
pub enum WhatIfPatch {
    /// Replace a function argument (decoded text form).
    ModifyArgument { index: usize, new_value: String },
    /// Replace a ledger entry (hex-encoded bytes).
    ModifyLedgerEntry { key: String, new_value: String },
    /// Change the resource limits.
    ModifyResourceLimits { cpu_limit: Option<u64>, memory_limit: Option<u64> },
    /// Add or remove an auth signer.
    ModifyAuth { add_signer: Option<String>, remove_signer: Option<String> },
}

/// The outcome of a what-if simulation.
#[derive(Debug)]
pub struct WhatIfResult {
    pub original: ExecutionTrace,
    pub modified: ExecutionTrace,
    /// Where the two traces first diverge.
    pub divergence_point: Option<usize>,
    pub summary: String,
}

/// Runs a what-if simulation with the given patches. Re-simulation is not
/// available yet: every call fails with an internal error saying so.
pub fn simulate_whatif(tx_hash: &str, patches: &[WhatIfPatch], network: &NetworkConfig) -> (r: GratResult<WhatIfResult>)
    ensures
        r matches Err(GratError::Internal(m)) && m@ == "What-if simulation not yet implemented"@,
{
    Err(GratError::Internal(String::from_str("What-if simulation not yet implemented")))
}

} // verus!
