//! Details of the `Contract` category's host error codes.

use vstd::prelude::*;
use crate::types::report::Severity;

verus! {

/// A developer-friendly description of one `Contract` category code.
#[derive(Debug, Clone, Copy, PartialEq, Eq)]
pub struct ContractErrorDetail {
    /// The numeric code.
    pub code: u32,
    /// The canonical name of the code.
    pub name: &'static str,
    /// A short explanation of the failure.
    pub summary: &'static str,
    /// How serious the failure is.
    pub severity: Severity,
}

/// The documented detail of a code, if the code is documented.
pub open spec fn contract_error_detail(code: u32) -> Option<ContractErrorDetail> {
    match code {
        0 => Some(ContractErrorDetail {
            code: 0,
            name: "ContractError",
            summary: "Contract error: the contract's own logic rejected this call — run with --resolve to map the code to its name.",
            severity: Severity::Error,
        }),
        1 => Some(ContractErrorDetail {
            code: 1,
            name: "InternalError",
            summary: "An internal protocol implementation error occurred (e.g. invalid ledger state).",
            severity: Severity::Error,
        }),
        2 => Some(ContractErrorDetail {
            code: 2,
            name: "OperationNotSupportedError",
            summary: "The operation is not supported (e.g. calling clawback on an asset without clawback enabled).",
            severity: Severity::Error,
        }),
        3 => Some(ContractErrorDetail {
            code: 3,
            name: "AlreadyInitializedError",
            summary: "The contract instance has already been initialized and cannot be re-initialized.",
            severity: Severity::Error,
        }),
        6 => Some(ContractErrorDetail {
            code: 6,
            name: "AccountMissingError",
            summary: "An account involved in the transaction does not exist on the network.",
            severity: Severity::Error,
        }),
        _ => None,
    }
}

/// Looks up the documented detail of a code.
pub fn lookup(code: u32) -> (r: Option<ContractErrorDetail>)
    ensures
        r == contract_error_detail(code),
        r matches Some(d) ==> d.code == code,
        r is Some <==> (code == 0 || code == 1 || code == 2 || code == 3 || code == 6),
{
    match code {
        0 => Some(ContractErrorDetail {
            code: 0,
            name: "ContractError",
            summary: "Contract error: the contract's own logic rejected this call — run with --resolve to map the code to its name.",
            severity: Severity::Error,
        }),
        1 => Some(ContractErrorDetail {
            code: 1,
            name: "InternalError",
            summary: "An internal protocol implementation error occurred (e.g. invalid ledger state).",
            severity: Severity::Error,
        }),
        2 => Some(ContractErrorDetail {
            code: 2,
            name: "OperationNotSupportedError",
            summary: "The operation is not supported (e.g. calling clawback on an asset without clawback enabled).",
            severity: Severity::Error,
        }),
        3 => Some(ContractErrorDetail {
            code: 3,
            name: "AlreadyInitializedError",
            summary: "The contract instance has already been initialized and cannot be re-initialized.",
            severity: Severity::Error,
        }),
        6 => Some(ContractErrorDetail {
            code: 6,
            name: "AccountMissingError",
            summary: "An account involved in the transaction does not exist on the network.",
            severity: Severity::Error,
        }),
        _ => None,
    }
}

/// Every documented code, in table order: each entry is the detail of its
/// own code, and no code occurs twice.
pub fn contract_error_details() -> (t: Vec<ContractErrorDetail>)
    ensures
        t@.len() == 5,
        t@[0].code == 0,
        t@[1].code == 1,
        t@[2].code == 2,
        t@[3].code == 3,
        t@[4].code == 6,
        forall|i: int| 0 <= i < t@.len() ==> contract_error_detail(#[trigger] t@[i].code) == Some(t@[i]),
        forall|i: int, j: int| 0 <= i < j < t@.len() ==> #[trigger] t@[i].code != #[trigger] t@[j].code,
{
    let mut t = Vec::new();
    t.push(lookup(0).unwrap());
    t.push(lookup(1).unwrap());
    t.push(lookup(2).unwrap());
    t.push(lookup(3).unwrap());
    t.push(lookup(6).unwrap());
    t
}

/// The `Contract` category's named codes and their names: each of these codes
/// has the name shown, and no other code is named.
pub proof fn law_contract_code_names(c: u32)
    ensures
        contract_error_detail(0) matches Some(d) && d.name@ == "ContractError"@,
        contract_error_detail(1) matches Some(d) && d.name@ == "InternalError"@,
        contract_error_detail(2) matches Some(d) && d.name@ == "OperationNotSupportedError"@,
        contract_error_detail(3) matches Some(d) && d.name@ == "AlreadyInitializedError"@,
        contract_error_detail(6) matches Some(d) && d.name@ == "AccountMissingError"@,
        contract_error_detail(c) is Some <==> (c == 0 || c == 1 || c == 2 || c == 3 || c == 6),
{
}

} // verus!
