//! The error taxonomy: categories, entries, and the indexed database.

pub mod loader;
pub mod schema;
