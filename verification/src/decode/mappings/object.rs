//! Details of the `Object` category's host error subcodes.

use vstd::prelude::*;

verus! {

/// Details of a host object error subcode; the severity is one of
/// "Info", "Warning", "Error", "Fatal".
#[derive(Debug, Clone, Copy, PartialEq, Eq)]
pub struct ObjectErrorDetail {
    /// The numeric code.
    pub code: u32,
    /// The canonical name of the code.
    pub name: &'static str,
    /// A short explanation of the failure.
    pub summary: &'static str,
    /// How serious the failure is.
    pub severity: &'static str,
}

/// The documented detail of a code, if the code is documented.
pub open spec fn object_error_detail(code: u32) -> Option<ObjectErrorDetail> {
    match code {
        0 => Some(ObjectErrorDetail {
            code: 0,
            name: "UnknownError",
            summary: "An unknown error occurred during a host object operation.",
            severity: "Error",
        }),
        1 => Some(ObjectErrorDetail {
            code: 1,
            name: "UnknownReference",
            summary: "The referenced host object handle is invalid or does not exist.",
            severity: "Error",
        }),
        2 => Some(ObjectErrorDetail {
            code: 2,
            name: "UnexpectedType",
            summary: "The host object type does not match the type expected by the host function.",
            severity: "Error",
        }),
        3 => Some(ObjectErrorDetail {
            code: 3,
            name: "ExceededLimit",
            summary: "The number of active host objects has exceeded the maximum capacity of a 32-bit unsigned integer (u32::MAX).",
            severity: "Fatal",
        }),
        4 => Some(ObjectErrorDetail {
            code: 4,
            name: "ObjectNotFound",
            summary: "The requested host object could not be found or has already been consumed.",
            severity: "Error",
        }),
        5 => Some(ObjectErrorDetail {
            code: 5,
            name: "IndexBounds",
            summary: "Attempted to access a vector or collection element at an out-of-bounds index.",
            severity: "Error",
        }),
        6 => Some(ObjectErrorDetail {
            code: 6,
            name: "ContractHashWrongLength",
            summary: "The contract hash or address byte array has an incorrect length (must be 32 bytes).",
            severity: "Error",
        }),
        _ => None,
    }
}

/// Looks up the documented detail of a code.
pub fn resolve_object_error(code: u32) -> (r: Option<ObjectErrorDetail>)
    ensures
        r == object_error_detail(code),
        r matches Some(d) ==> d.code == code,
        r is Some <==> code < 7,
{
    match code {
        0 => Some(ObjectErrorDetail {
            code: 0,
            name: "UnknownError",
            summary: "An unknown error occurred during a host object operation.",
            severity: "Error",
        }),
        1 => Some(ObjectErrorDetail {
            code: 1,
            name: "UnknownReference",
            summary: "The referenced host object handle is invalid or does not exist.",
            severity: "Error",
        }),
        2 => Some(ObjectErrorDetail {
            code: 2,
            name: "UnexpectedType",
            summary: "The host object type does not match the type expected by the host function.",
            severity: "Error",
        }),
        3 => Some(ObjectErrorDetail {
            code: 3,
            name: "ExceededLimit",
            summary: "The number of active host objects has exceeded the maximum capacity of a 32-bit unsigned integer (u32::MAX).",
            severity: "Fatal",
        }),
        4 => Some(ObjectErrorDetail {
            code: 4,
            name: "ObjectNotFound",
            summary: "The requested host object could not be found or has already been consumed.",
            severity: "Error",
        }),
        5 => Some(ObjectErrorDetail {
            code: 5,
            name: "IndexBounds",
            summary: "Attempted to access a vector or collection element at an out-of-bounds index.",
            severity: "Error",
        }),
        6 => Some(ObjectErrorDetail {
            code: 6,
            name: "ContractHashWrongLength",
            summary: "The contract hash or address byte array has an incorrect length (must be 32 bytes).",
            severity: "Error",
        }),
        _ => None,
    }
}

/// Every documented code, in table order: each entry is the detail of its
/// own code, and no code occurs twice.
pub fn object_error_mappings() -> (t: Vec<ObjectErrorDetail>)
    ensures
        t@.len() == 7,
        forall|i: int| 0 <= i < t@.len() ==> #[trigger] t@[i].code == i,
        forall|i: int| 0 <= i < t@.len() ==> object_error_detail(#[trigger] t@[i].code) == Some(t@[i]),
        forall|i: int, j: int| 0 <= i < j < t@.len() ==> #[trigger] t@[i].code != #[trigger] t@[j].code,
{
    let mut t = Vec::new();
    t.push(resolve_object_error(0).unwrap());
    t.push(resolve_object_error(1).unwrap());
    t.push(resolve_object_error(2).unwrap());
    t.push(resolve_object_error(3).unwrap());
    t.push(resolve_object_error(4).unwrap());
    t.push(resolve_object_error(5).unwrap());
    t.push(resolve_object_error(6).unwrap());
    t
}

/// The `Object` category's named codes and their names: each of these codes
/// has the name shown, and no other code is named.
pub proof fn law_object_code_names(c: u32)
    ensures
        object_error_detail(0) matches Some(d) && d.name@ == "UnknownError"@,
        object_error_detail(1) matches Some(d) && d.name@ == "UnknownReference"@,
        object_error_detail(2) matches Some(d) && d.name@ == "UnexpectedType"@,
        object_error_detail(3) matches Some(d) && d.name@ == "ExceededLimit"@,
        object_error_detail(4) matches Some(d) && d.name@ == "ObjectNotFound"@,
        object_error_detail(5) matches Some(d) && d.name@ == "IndexBounds"@,
        object_error_detail(6) matches Some(d) && d.name@ == "ContractHashWrongLength"@,
        object_error_detail(c) is Some <==> (c == 0 || c == 1 || c == 2 || c == 3 || c == 4 || c == 5 || c == 6),
{
}

} // verus!
