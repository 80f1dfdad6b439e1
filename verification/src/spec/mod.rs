//! Contract specifications: reading them out of WASM, resolving error codes
//! against them, and the bookkeeping of the resolver that caches them.

pub mod decoder;
pub mod resolver;
