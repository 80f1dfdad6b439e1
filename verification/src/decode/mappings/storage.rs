//! Names of the `Storage` category's host error codes.

use vstd::prelude::*;

verus! {

/// The name of one `Storage` category code.
#[derive(Debug, Clone, Copy, PartialEq, Eq)]
pub struct StorageErrorDetail {
    /// The numeric code.
    pub code: u32,
    /// The canonical name of the code.
    pub name: &'static str,
}

/// The named detail of a code, if the code is named.
pub open spec fn storage_error_detail(code: u32) -> Option<StorageErrorDetail> {
    match code {
        0 => Some(StorageErrorDetail { code: 0, name: "AccessDenied" }),
        4 => Some(StorageErrorDetail { code: 4, name: "NearExpiry" }),
        _ => None,
    }
}

/// Looks up the name of a code.
pub fn lookup(code: u32) -> (r: Option<StorageErrorDetail>)
    ensures
        r == storage_error_detail(code),
        r matches Some(d) ==> d.code == code,
        r is Some <==> (code == 0 || code == 4),
{
    match code {
        0 => Some(StorageErrorDetail { code: 0, name: "AccessDenied" }),
        4 => Some(StorageErrorDetail { code: 4, name: "NearExpiry" }),
        _ => None,
    }
}

/// The `Storage` category's named codes and their names: each of these codes
/// has the name shown, and no other code is named.
pub proof fn law_storage_code_names(c: u32)
    ensures
        storage_error_detail(0) matches Some(d) && d.name@ == "AccessDenied"@,
        storage_error_detail(4) matches Some(d) && d.name@ == "NearExpiry"@,
        storage_error_detail(c) is Some <==> (c == 0 || c == 4),
{
}

} // verus!
