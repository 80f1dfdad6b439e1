//! Names of the `Budget` category's host error codes.

use vstd::prelude::*;

verus! {

/// The name of one `Budget` category code.
#[derive(Debug, Clone, Copy, PartialEq, Eq)]
pub struct BudgetErrorDetail {
    /// The numeric code.
    pub code: u32,
    /// The canonical name of the code.
    pub name: &'static str,
}

/// The named detail of a code, if the code is named.
pub open spec fn budget_error_detail(code: u32) -> Option<BudgetErrorDetail> {
    match code {
        0 => Some(BudgetErrorDetail { code: 0, name: "CPUExceeded" }),
        8 => Some(BudgetErrorDetail { code: 8, name: "ExceededLimit" }),
        _ => None,
    }
}

/// Looks up the name of a code.
pub fn lookup(code: u32) -> (r: Option<BudgetErrorDetail>)
    ensures
        r == budget_error_detail(code),
        r matches Some(d) ==> d.code == code,
        r is Some <==> (code == 0 || code == 8),
{
    match code {
        0 => Some(BudgetErrorDetail { code: 0, name: "CPUExceeded" }),
        8 => Some(BudgetErrorDetail { code: 8, name: "ExceededLimit" }),
        _ => None,
    }
}

/// The `Budget` category's named codes and their names: each of these codes
/// has the name shown, and no other code is named.
pub proof fn law_budget_code_names(c: u32)
    ensures
        budget_error_detail(0) matches Some(d) && d.name@ == "CPUExceeded"@,
        budget_error_detail(8) matches Some(d) && d.name@ == "ExceededLimit"@,
        budget_error_detail(c) is Some <==> (c == 0 || c == 8),
{
}

} // verus!
