//! Per-category tables that name and explain host error codes.

pub mod auth;
pub mod budget;
pub mod context;
pub mod contract;
pub mod crypto;
pub mod events;
pub mod object;
pub mod storage;
pub mod value;
pub mod wasm;
