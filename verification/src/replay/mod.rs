//! The replay engine: reconstructed ledger state, sandboxed execution
//! results, state differences and resource profiles.

pub mod differ;
pub mod profiler;
pub mod sandbox;
pub mod state;
