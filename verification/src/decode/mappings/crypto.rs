//! Details of the `Crypto` category's host error codes.

use vstd::prelude::*;
use crate::types::report::Severity;

verus! {

/// A developer-friendly description of one `Crypto` category code.
#[derive(Debug, Clone, Copy, PartialEq, Eq)]
pub struct CryptoErrorDetail {
    /// The numeric code.
    pub code: u32,
    /// The canonical name of the code.
    pub name: &'static str,
    /// A short explanation of the failure.
    pub summary: &'static str,
    /// How serious the failure is.
    pub severity: Severity,
}

/// The documented detail of a code, if the code is documented.
pub open spec fn crypto_error_detail(code: u32) -> Option<CryptoErrorDetail> {
    match code {
        0 => Some(CryptoErrorDetail {
            code: 0,
            name: "InvalidInput",
            summary: "Invalid cryptographic input: the supplied key, signature, or hash has an invalid format or length.",
            severity: Severity::Error,
        }),
        1 => Some(CryptoErrorDetail {
            code: 1,
            name: "InvalidSignature",
            summary: "Signature verification failed. The supplied signature does not match the message and public key.",
            severity: Severity::Error,
        }),
        2 => Some(CryptoErrorDetail {
            code: 2,
            name: "MalformedPublicKey",
            summary: "The provided public key is malformed or cannot be decoded.",
            severity: Severity::Error,
        }),
        3 => Some(CryptoErrorDetail {
            code: 3,
            name: "MalformedSignature",
            summary: "The provided signature is malformed or has an invalid encoding.",
            severity: Severity::Error,
        }),
        4 => Some(CryptoErrorDetail {
            code: 4,
            name: "InvalidHash",
            summary: "The supplied hash value is invalid or has an unexpected length.",
            severity: Severity::Error,
        }),
        _ => None,
    }
}

/// Looks up the documented detail of a code.
pub fn lookup(code: u32) -> (r: Option<CryptoErrorDetail>)
    ensures
        r == crypto_error_detail(code),
        r matches Some(d) ==> d.code == code,
        r is Some <==> code < 5,
{
    match code {
        0 => Some(CryptoErrorDetail {
            code: 0,
            name: "InvalidInput",
            summary: "Invalid cryptographic input: the supplied key, signature, or hash has an invalid format or length.",
            severity: Severity::Error,
        }),
        1 => Some(CryptoErrorDetail {
            code: 1,
            name: "InvalidSignature",
            summary: "Signature verification failed. The supplied signature does not match the message and public key.",
            severity: Severity::Error,
        }),
        2 => Some(CryptoErrorDetail {
            code: 2,
            name: "MalformedPublicKey",
            summary: "The provided public key is malformed or cannot be decoded.",
            severity: Severity::Error,
        }),
        3 => Some(CryptoErrorDetail {
            code: 3,
            name: "MalformedSignature",
            summary: "The provided signature is malformed or has an invalid encoding.",
            severity: Severity::Error,
        }),
        4 => Some(CryptoErrorDetail {
            code: 4,
            name: "InvalidHash",
            summary: "The supplied hash value is invalid or has an unexpected length.",
            severity: Severity::Error,
        }),
        _ => None,
    }
}

/// Every documented code, in table order: each entry is the detail of its
/// own code, and no code occurs twice.
pub fn crypto_error_details() -> (t: Vec<CryptoErrorDetail>)
    ensures
        t@.len() == 5,
        forall|i: int| 0 <= i < t@.len() ==> #[trigger] t@[i].code == i,
        forall|i: int| 0 <= i < t@.len() ==> crypto_error_detail(#[trigger] t@[i].code) == Some(t@[i]),
        forall|i: int, j: int| 0 <= i < j < t@.len() ==> #[trigger] t@[i].code != #[trigger] t@[j].code,
{
    let mut t = Vec::new();
    t.push(lookup(0).unwrap());
    t.push(lookup(1).unwrap());
    t.push(lookup(2).unwrap());
    t.push(lookup(3).unwrap());
    t.push(lookup(4).unwrap());
    t
}

/// The `Crypto` category's named codes and their names: each of these codes
/// has the name shown, and no other code is named.
pub proof fn law_crypto_code_names(c: u32)
    ensures
        crypto_error_detail(0) matches Some(d) && d.name@ == "InvalidInput"@,
        crypto_error_detail(1) matches Some(d) && d.name@ == "InvalidSignature"@,
        crypto_error_detail(2) matches Some(d) && d.name@ == "MalformedPublicKey"@,
        crypto_error_detail(3) matches Some(d) && d.name@ == "MalformedSignature"@,
        crypto_error_detail(4) matches Some(d) && d.name@ == "InvalidHash"@,
        crypto_error_detail(c) is Some <==> (c == 0 || c == 1 || c == 2 || c == 3 || c == 4),
{
}

} // verus!
