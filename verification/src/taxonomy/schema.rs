//! The shape of taxonomy definitions.

use vstd::prelude::*;

verus! {

/// A Soroban host error category.
#[derive(Debug, Clone, Copy, PartialEq, Eq, Structural, Hash)]
pub enum ErrorCategory {
    Budget,
    Storage,
    Auth,
    Context,
    Value,
    Object,
    Crypto,
    Contract,
    Wasm,
    Events,
}

/// The header of a taxonomy file: which category it describes.
#[derive(Debug, Clone, PartialEq, Eq)]
pub struct CategoryInfo {
    pub name: String,
    pub description: String,
    pub source_module: String,
}

/// One documented error of the taxonomy.
#[derive(Debug, Clone, PartialEq, Eq)]
pub struct TaxonomyEntry {
    pub id: String,
    pub category: ErrorCategory,
    pub code: u32,
    pub name: String,
    pub severity: String,
    pub summary: String,
    pub detailed_explanation: String,
    pub common_causes: Vec<String>,
    pub suggested_fixes: Vec<String>,
    pub related_errors: Vec<String>,
}

/// A parsed taxonomy file.
#[derive(Debug, Clone, PartialEq, Eq)]
pub struct TaxonomySchema {
    pub category: CategoryInfo,
    pub errors: Vec<TaxonomyEntry>,
}

} // verus!
