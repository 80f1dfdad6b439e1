//! The on-disk cache: its categories and the limits it enforces.

pub mod store;
