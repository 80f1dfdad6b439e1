//! Details of the `Wasm` category's host error codes: module validation
//! failures and runtime traps inside the VM.

use vstd::prelude::*;
use crate::types::report::Severity;

verus! {

/// A developer-friendly description of one `Wasm` category code.
#[derive(Debug, Clone, Copy, PartialEq, Eq)]
pub struct WasmErrorDetail {
    /// The numeric code.
    pub code: u32,
    /// The canonical name of the code.
    pub name: &'static str,
    /// A short explanation of the failure.
    pub summary: &'static str,
    /// How serious the failure is.
    pub severity: Severity,
}

/// The documented detail of a code, if the code is documented.
pub open spec fn wasm_error_detail(code: u32) -> Option<WasmErrorDetail> {
    match code {
        0 => Some(WasmErrorDetail {
            code: 0,
            name: "InvalidModule",
            summary: "Invalid WASM module: the contract bytecode failed validation — recompile with a compatible Soroban SDK version.",
            severity: Severity::Error,
        }),
        1 => Some(WasmErrorDetail {
            code: 1,
            name: "Unreachable",
            summary: "WASM trap: the contract hit an `unreachable` instruction, usually from a Rust panic or a failed assertion.",
            severity: Severity::Error,
        }),
        2 => Some(WasmErrorDetail {
            code: 2,
            name: "MemoryAccessOutOfBounds",
            summary: "WASM trap: the contract read or wrote linear memory outside its valid bounds (out-of-bounds memory access).",
            severity: Severity::Error,
        }),
        3 => Some(WasmErrorDetail {
            code: 3,
            name: "TableAccessOutOfBounds",
            summary: "WASM trap: an indirect call referenced a function-table index that is out of bounds.",
            severity: Severity::Error,
        }),
        4 => Some(WasmErrorDetail {
            code: 4,
            name: "IndirectCallTypeMismatch",
            summary: "WASM trap: an indirect call reached a function whose signature did not match the call site.",
            severity: Severity::Error,
        }),
        5 => Some(WasmErrorDetail {
            code: 5,
            name: "IntegerDivisionByZero",
            summary: "WASM trap: the contract performed an integer division or remainder with a divisor of zero.",
            severity: Severity::Error,
        }),
        6 => Some(WasmErrorDetail {
            code: 6,
            name: "IntegerOverflow",
            summary: "WASM trap: an integer arithmetic operation overflowed the range of its type.",
            severity: Severity::Error,
        }),
        7 => Some(WasmErrorDetail {
            code: 7,
            name: "InvalidConversionToInt",
            summary: "WASM trap: a float-to-integer conversion was NaN or fell outside the target integer range.",
            severity: Severity::Error,
        }),
        8 => Some(WasmErrorDetail {
            code: 8,
            name: "StackOverflow",
            summary: "WASM trap: call recursion exceeded the VM stack-depth limit (stack overflow).",
            severity: Severity::Error,
        }),
        _ => None,
    }
}

/// Looks up the documented detail of a code.
pub fn lookup(code: u32) -> (r: Option<WasmErrorDetail>)
    ensures
        r == wasm_error_detail(code),
        r matches Some(d) ==> d.code == code,
        r is Some <==> code < 9,
{
    match code {
        0 => Some(WasmErrorDetail {
            code: 0,
            name: "InvalidModule",
            summary: "Invalid WASM module: the contract bytecode failed validation — recompile with a compatible Soroban SDK version.",
            severity: Severity::Error,
        }),
        1 => Some(WasmErrorDetail {
            code: 1,
            name: "Unreachable",
            summary: "WASM trap: the contract hit an `unreachable` instruction, usually from a Rust panic or a failed assertion.",
            severity: Severity::Error,
        }),
        2 => Some(WasmErrorDetail {
            code: 2,
            name: "MemoryAccessOutOfBounds",
            summary: "WASM trap: the contract read or wrote linear memory outside its valid bounds (out-of-bounds memory access).",
            severity: Severity::Error,
        }),
        3 => Some(WasmErrorDetail {
            code: 3,
            name: "TableAccessOutOfBounds",
            summary: "WASM trap: an indirect call referenced a function-table index that is out of bounds.",
            severity: Severity::Error,
        }),
        4 => Some(WasmErrorDetail {
            code: 4,
            name: "IndirectCallTypeMismatch",
            summary: "WASM trap: an indirect call reached a function whose signature did not match the call site.",
            severity: Severity::Error,
        }),
        5 => Some(WasmErrorDetail {
            code: 5,
            name: "IntegerDivisionByZero",
            summary: "WASM trap: the contract performed an integer division or remainder with a divisor of zero.",
            severity: Severity::Error,
        }),
        6 => Some(WasmErrorDetail {
            code: 6,
            name: "IntegerOverflow",
            summary: "WASM trap: an integer arithmetic operation overflowed the range of its type.",
            severity: Severity::Error,
        }),
        7 => Some(WasmErrorDetail {
            code: 7,
            name: "InvalidConversionToInt",
            summary: "WASM trap: a float-to-integer conversion was NaN or fell outside the target integer range.",
            severity: Severity::Error,
        }),
        8 => Some(WasmErrorDetail {
            code: 8,
            name: "StackOverflow",
            summary: "WASM trap: call recursion exceeded the VM stack-depth limit (stack overflow).",
            severity: Severity::Error,
        }),
        _ => None,
    }
}

/// Every documented code, in table order: each entry is the detail of its
/// own code, and no code occurs twice.
pub fn wasm_error_details() -> (t: Vec<WasmErrorDetail>)
    ensures
        t@.len() == 9,
        forall|i: int| 0 <= i < t@.len() ==> #[trigger] t@[i].code == i,
        forall|i: int| 0 <= i < t@.len() ==> wasm_error_detail(#[trigger] t@[i].code) == Some(t@[i]),
        forall|i: int, j: int| 0 <= i < j < t@.len() ==> #[trigger] t@[i].code != #[trigger] t@[j].code,
{
    let mut t = Vec::new();
    t.push(lookup(0).unwrap());
    t.push(lookup(1).unwrap());
    t.push(lookup(2).unwrap());
    t.push(lookup(3).unwrap());
    t.push(lookup(4).unwrap());
    t.push(lookup(5).unwrap());
    t.push(lookup(6).unwrap());
    t.push(lookup(7).unwrap());
    t.push(lookup(8).unwrap());
    t
}

/// The `Wasm` category's named codes and their names: each of these codes
/// has the name shown, and no other code is named.
pub proof fn law_wasm_code_names(c: u32)
    ensures
        wasm_error_detail(0) matches Some(d) && d.name@ == "InvalidModule"@,
        wasm_error_detail(1) matches Some(d) && d.name@ == "Unreachable"@,
        wasm_error_detail(2) matches Some(d) && d.name@ == "MemoryAccessOutOfBounds"@,
        wasm_error_detail(3) matches Some(d) && d.name@ == "TableAccessOutOfBounds"@,
        wasm_error_detail(4) matches Some(d) && d.name@ == "IndirectCallTypeMismatch"@,
        wasm_error_detail(5) matches Some(d) && d.name@ == "IntegerDivisionByZero"@,
        wasm_error_detail(6) matches Some(d) && d.name@ == "IntegerOverflow"@,
        wasm_error_detail(7) matches Some(d) && d.name@ == "InvalidConversionToInt"@,
        wasm_error_detail(8) matches Some(d) && d.name@ == "StackOverflow"@,
        wasm_error_detail(c) is Some <==> (c == 0 || c == 1 || c == 2 || c == 3 || c == 4 || c == 5 || c == 6 || c == 7 || c == 8),
{
}

} // verus!
