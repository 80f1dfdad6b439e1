//! Names of the `Value` category's host error codes.

use vstd::prelude::*;

verus! {

/// The name of one `Value` category code.
#[derive(Debug, Clone, Copy, PartialEq, Eq)]
pub struct ValueErrorDetail {
    /// The numeric code.
    pub code: u32,
    /// The canonical name of the code.
    pub name: &'static str,
}

/// The named detail of a code, if the code is named.
pub open spec fn value_error_detail(code: u32) -> Option<ValueErrorDetail> {
    match code {
        0 => Some(ValueErrorDetail { code: 0, name: "UnknownError" }),
        4 => Some(ValueErrorDetail { code: 4, name: "InternalError" }),
        6 => Some(ValueErrorDetail { code: 6, name: "InvalidInput" }),
        _ => None,
    }
}

/// Looks up the name of a code.
pub fn lookup(code: u32) -> (r: Option<ValueErrorDetail>)
    ensures
        r == value_error_detail(code),
        r matches Some(d) ==> d.code == code,
        r is Some <==> (code == 0 || code == 4 || code == 6),
{
    match code {
        0 => Some(ValueErrorDetail { code: 0, name: "UnknownError" }),
        4 => Some(ValueErrorDetail { code: 4, name: "InternalError" }),
        6 => Some(ValueErrorDetail { code: 6, name: "InvalidInput" }),
        _ => None,
    }
}

/// The `Value` category's named codes and their names: each of these codes
/// has the name shown, and no other code is named.
pub proof fn law_value_code_names(c: u32)
    ensures
        value_error_detail(0) matches Some(d) && d.name@ == "UnknownError"@,
        value_error_detail(4) matches Some(d) && d.name@ == "InternalError"@,
        value_error_detail(6) matches Some(d) && d.name@ == "InvalidInput"@,
        value_error_detail(c) is Some <==> (c == 0 || c == 4 || c == 6),
{
}

} // verus!
