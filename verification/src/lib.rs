//! Core library of the Prism Soroban transaction debugger: error decoding,
//! value rendering, failure attribution and the decisions of the RPC client.

pub mod text;
pub mod error;
pub mod xdr;
pub mod xdr_types;
pub mod json;
pub mod decode;
pub mod taxonomy;
pub mod types;
pub mod rpc;
pub mod replay;
pub mod debugger;
pub mod cache;
pub mod spec;
pub mod cli;
