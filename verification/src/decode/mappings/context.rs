//! Names of the `Context` category's host error codes.

use vstd::prelude::*;

verus! {

/// The name of one `Context` category code.
#[derive(Debug, Clone, Copy, PartialEq, Eq)]
pub struct ContextErrorDetail {
    /// The numeric code.
    pub code: u32,
    /// The canonical name of the code.
    pub name: &'static str,
}

/// The named detail of a code, if the code is named.
pub open spec fn context_error_detail(code: u32) -> Option<ContextErrorDetail> {
    match code {
        0 => Some(ContextErrorDetail { code: 0, name: "UnknownError" }),
        6 => Some(ContextErrorDetail { code: 6, name: "InvalidAction" }),
        7 => Some(ContextErrorDetail { code: 7, name: "InternalError" }),
        _ => None,
    }
}

/// Looks up the name of a code.
pub fn lookup(code: u32) -> (r: Option<ContextErrorDetail>)
    ensures
        r == context_error_detail(code),
        r matches Some(d) ==> d.code == code,
        r is Some <==> (code == 0 || code == 6 || code == 7),
{
    match code {
        0 => Some(ContextErrorDetail { code: 0, name: "UnknownError" }),
        6 => Some(ContextErrorDetail { code: 6, name: "InvalidAction" }),
        7 => Some(ContextErrorDetail { code: 7, name: "InternalError" }),
        _ => None,
    }
}

/// The `Context` category's named codes and their names: each of these codes
/// has the name shown, and no other code is named.
pub proof fn law_context_code_names(c: u32)
    ensures
        context_error_detail(0) matches Some(d) && d.name@ == "UnknownError"@,
        context_error_detail(6) matches Some(d) && d.name@ == "InvalidAction"@,
        context_error_detail(7) matches Some(d) && d.name@ == "InternalError"@,
        context_error_detail(c) is Some <==> (c == 0 || c == 6 || c == 7),
{
}

} // verus!
