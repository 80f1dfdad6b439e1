//! Categories of cached data and the size limit of a cache entry.

use vstd::prelude::*;
use crate::error::{GratError, GratResult};
use crate::text::u64_to_decimal;

verus! {

/// The kinds of data kept in the cache, each in a directory of its own.
#[derive(Debug, Clone, Copy, PartialEq, Eq)]
pub enum CacheCategory {
    WasmBlob,
    ContractSpec,
    LedgerEntry,
    TransactionResult,
}

/// The directory name of a category.
pub open spec fn category_dir(c: CacheCategory) -> Seq<char> {
    match c {
        CacheCategory::WasmBlob => "wasm"@,
        CacheCategory::ContractSpec => "spec"@,
        CacheCategory::LedgerEntry => "ledger"@,
        CacheCategory::TransactionResult => "tx"@,
    }
}

impl CacheCategory {
    /// The directory name of the category.
    pub fn as_str(self) -> (s: &'static str)
        ensures
            s@ == category_dir(self),
    {
        match self {
            CacheCategory::WasmBlob => "wasm",
            CacheCategory::ContractSpec => "spec",
            CacheCategory::LedgerEntry => "ledger",
            CacheCategory::TransactionResult => "tx",
        }
    }
}

/// The size limit of a cache entry, in bytes, for a limit given in mebibytes.
pub fn max_size_bytes(max_size_mb: u64) -> (n: u64)
    requires
        max_size_mb * 1024 * 1024 <= u64::MAX,
    ensures
        n == max_size_mb * 1024 * 1024,
{
    max_size_mb * 1024 * 1024
}

/// Checks that an entry of `len` bytes fits under the size limit.
pub fn check_entry_size(max_size: u64, len: usize) -> (r: GratResult<()>)
    ensures
        len <= max_size ==> r is Ok,
        len > max_size ==> (r matches Err(GratError::CacheError(m)) && m@
            == "Cache entry exceeds configured cache size limit of "@ + crate::text::decimal_digits(
            max_size as nat,
        ) + " bytes"@),
{
    if len as u64 > max_size {
        let mut msg = String::from_str("Cache entry exceeds configured cache size limit of ");
        let n = u64_to_decimal(max_size);
        msg.append(n.as_str());
        msg.append(" bytes");
        Err(GratError::CacheError(msg))
    } else {
        Ok(())
    }
}

} // verus!
