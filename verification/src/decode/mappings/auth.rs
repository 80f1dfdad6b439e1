//! Names of the `Auth` category's host error codes.

use vstd::prelude::*;

verus! {

/// The name of one `Auth` category code.
#[derive(Debug, Clone, Copy, PartialEq, Eq)]
pub struct AuthErrorDetail {
    /// The numeric code.
    pub code: u32,
    /// The canonical name of the code.
    pub name: &'static str,
}

/// The named detail of a code, if the code is named.
pub open spec fn auth_error_detail(code: u32) -> Option<AuthErrorDetail> {
    match code {
        0 => Some(AuthErrorDetail { code: 0, name: "InvalidAction" }),
        _ => None,
    }
}

/// Looks up the name of a code.
pub fn lookup(code: u32) -> (r: Option<AuthErrorDetail>)
    ensures
        r == auth_error_detail(code),
        r matches Some(d) ==> d.code == code,
        r is Some <==> (code == 0),
{
    match code {
        0 => Some(AuthErrorDetail { code: 0, name: "InvalidAction" }),
        _ => None,
    }
}

/// The `Auth` category's named codes and their names: each of these codes
/// has the name shown, and no other code is named.
pub proof fn law_auth_code_names(c: u32)
    ensures
        auth_error_detail(0) matches Some(d) && d.name@ == "InvalidAction"@,
        auth_error_detail(c) is Some <==> (c == 0),
{
}

} // verus!
