//! The decisions of the Soroban RPC client: retry and backoff, the handling
//! of each HTTP outcome, and the batching of ledger-entry requests.

pub mod client;
pub mod jsonrpc;
