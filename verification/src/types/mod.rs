//! Plain data types shared across the library.

pub mod contract_id;
pub mod network;
pub mod report;
pub mod trace;
