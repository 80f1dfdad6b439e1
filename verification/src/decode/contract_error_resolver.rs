//! Resolution of a numeric contract error code to the name and doc comment
//! of the variant in the contract's error enum: how the contract's WASM is
//! located through its instance and code ledger entries, and what the
//! resolution answers.

use vstd::prelude::*;
use crate::decode::ledger_entry::{
    code_key_base64, decode_ledger_entry_base64, encode_code_key, encode_instance_key, first_entry_of,
    first_entry_xdr, instance_key_base64, ledger_entry_from_base64, FirstEntry, FirstEntryXdr,
    LedgerEntryShape, ShapeView,
};
use crate::error::{error_view, ErrorView, GratError, GratResult};
use crate::json::{json_view, Json, JsonValue};
use crate::spec::decoder::{
    bytes_result_view, decode_contract_spec, errors_view, first_error_with, lemma_first_error_absent,
    lemma_first_error_found, resolve_error_code, entries_before_failure, spec_entries_of, spec_errors, spec_section, wasm_payloads,
};
use crate::text::{decimal_digits, u64_to_decimal};
use crate::types::contract_id::{contract_strkey_decode, strkey_error_message, strkey_error_text};
use crate::types::network::NetworkConfig;
use crate::xdr::XDR_READ_DEPTH;

verus! {

/// Resolves contract error codes on one network.
pub struct ContractErrorResolver {
    pub network: NetworkConfig,
}

impl ContractErrorResolver {
    /// A resolver for the given network.
    pub fn new(network: NetworkConfig) -> (r: Self)
        ensures
            r.network == network,
    {
        ContractErrorResolver { network }
    }
}

/// The cache key of a contract's WASM.
pub fn spec_cache_key(contract_id: &str) -> (k: String)
    ensures
        k@ == contract_id@ + "_spec"@,
{
    let mut k = String::from_str(contract_id);
    k.append("_spec");
    k
}

/// The contract hash a contract identifier encodes.
pub open spec fn contract_hash_of(contract_id: Seq<char>) -> Result<Seq<u8>, ErrorView> {
    match contract_strkey_decode(contract_id) {
        Ok(h) => Ok(h),
        Err(e) => Err(ErrorView::InvalidContractId(
            "'"@ + contract_id + "' is not valid StrKey-encoded data: "@ + strkey_error_text(e),
        )),
    }
}

/// The view of a key result.
pub open spec fn key_result_view(r: GratResult<String>) -> Result<Seq<char>, ErrorView> {
    match r {
        Ok(s) => Ok(s@),
        Err(e) => Err(error_view(e)),
    }
}

/// The `getLedgerEntries` key of a contract's instance entry.
pub open spec fn instance_key_of(contract_id: Seq<char>) -> Result<Seq<char>, ErrorView> {
    match contract_hash_of(contract_id) {
        Err(e) => Err(e),
        Ok(h) => match instance_key_base64(h) {
            Ok(k) => Ok(k),
            Err(e) => Err(ErrorView::XdrError(e)),
        },
    }
}

/// The `getLedgerEntries` key of a contract's instance entry: the base64 XDR
/// of its persistent `ContractData` key.
pub fn instance_key_for(contract_id: &str) -> (r: GratResult<String>)
    ensures
        key_result_view(r) == instance_key_of(contract_id@),
{
    let hash = match crate::types::contract_id::decode_contract_strkey(contract_id) {
        Ok(h) => h,
        Err(e) => {
            let mut msg = String::from_str("'");
            msg.append(contract_id);
            msg.append("' is not valid StrKey-encoded data: ");
            let text = strkey_error_message(e);
            msg.append(text.as_str());
            return Err(GratError::InvalidContractId(msg));
        },
    };
    match encode_instance_key(&hash) {
        Ok(k) => Ok(k),
        Err(e) => Err(GratError::XdrError(e)),
    }
}

/// The `getLedgerEntries` key of the code with a hash.
pub fn code_key_for(hash: &[u8; 32]) -> (r: GratResult<String>)
    ensures
        key_result_view(r) == match code_key_base64(hash@) {
            Ok(k) => Ok::<Seq<char>, ErrorView>(k),
            Err(e) => Err(ErrorView::XdrError(e)),
        },
{
    match encode_code_key(hash) {
        Ok(k) => Ok(k),
        Err(e) => Err(GratError::XdrError(e)),
    }
}

/// The WASM hash of a contract, read from the answer for its instance key.
pub open spec fn wasm_hash_of_answer(v: JsonValue, contract_id: Seq<char>) -> Result<Seq<u8>, ErrorView> {
    match first_entry_of(v) {
        FirstEntry::MissingArray => Err(ErrorView::ContractNotFound("Invalid response for contract "@ + contract_id)),
        FirstEntry::Empty => Err(ErrorView::ContractNotFound(contract_id)),
        FirstEntry::MissingXdr => Err(ErrorView::SpecError("Missing XDR in response for contract "@ + contract_id)),
        FirstEntry::Xdr(x) => match ledger_entry_from_base64(x, XDR_READ_DEPTH) {
            Err(e) => Err(ErrorView::XdrError(e)),
            Ok(ShapeView::WasmInstance(h)) => Ok(h),
            Ok(ShapeView::OtherInstance) => Err(ErrorView::SpecError("Contract is not a WASM executable"@)),
            Ok(ShapeView::OtherContractData) => Err(
                ErrorView::SpecError("Ledger entry value is not a ContractInstance"@),
            ),
            Ok(_) => Err(ErrorView::SpecError("Ledger entry is not ContractData"@)),
        },
    }
}

/// The view of a hash result.
pub open spec fn hash_result_view(r: GratResult<[u8; 32]>) -> Result<Seq<u8>, ErrorView> {
    match r {
        Ok(h) => Ok(h@),
        Err(e) => Err(error_view(e)),
    }
}

/// Reads the WASM hash of a contract from the `getLedgerEntries` answer for
/// its instance key: the first entry must be contract data holding a
/// contract instance whose executable is WASM.
pub fn wasm_hash_from_answer(response: &Json, contract_id: &str) -> (r: GratResult<[u8; 32]>)
    ensures
        hash_result_view(r) == wasm_hash_of_answer(json_view(*response), contract_id@),
{
    match first_entry_xdr(response) {
        FirstEntryXdr::MissingArray => {
            let mut msg = String::from_str("Invalid response for contract ");
            msg.append(contract_id);
            Err(GratError::ContractNotFound(msg))
        },
        FirstEntryXdr::Empty => Err(GratError::ContractNotFound(String::from_str(contract_id))),
        FirstEntryXdr::MissingXdr => {
            let mut msg = String::from_str("Missing XDR in response for contract ");
            msg.append(contract_id);
            Err(GratError::SpecError(msg))
        },
        FirstEntryXdr::Xdr(x) => match decode_ledger_entry_base64(x.as_str(), XDR_READ_DEPTH) {
            Err(e) => Err(GratError::XdrError(e)),
            Ok(LedgerEntryShape::WasmInstance(h)) => Ok(h),
            Ok(LedgerEntryShape::OtherInstance) => Err(
                GratError::SpecError(String::from_str("Contract is not a WASM executable")),
            ),
            Ok(LedgerEntryShape::OtherContractData) => Err(
                GratError::SpecError(String::from_str("Ledger entry value is not a ContractInstance")),
            ),
            Ok(_) => Err(GratError::SpecError(String::from_str("Ledger entry is not ContractData"))),
        },
    }
}

/// The WASM of a contract, read from the answer for its code key.
pub open spec fn wasm_of_code_answer(v: JsonValue, contract_id: Seq<char>) -> Result<Seq<u8>, ErrorView> {
    match first_entry_of(v) {
        FirstEntry::MissingArray => Err(ErrorView::ContractNotFound("Invalid response for contract code "@ + contract_id)),
        FirstEntry::Empty => Err(ErrorView::ContractNotFound(contract_id)),
        FirstEntry::MissingXdr => Err(ErrorView::SpecError("Missing XDR in response for contract code "@ + contract_id)),
        FirstEntry::Xdr(x) => match ledger_entry_from_base64(x, XDR_READ_DEPTH) {
            Err(e) => Err(ErrorView::XdrError(e)),
            Ok(ShapeView::ContractCode(code)) => Ok(code),
            Ok(_) => Err(ErrorView::SpecError("Ledger entry is not a contract code entry"@)),
        },
    }
}

/// Reads a contract's WASM from the `getLedgerEntries` answer for its code
/// key: the first entry must be a contract-code entry.
pub fn wasm_from_code_answer(response: &Json, contract_id: &str) -> (r: GratResult<Vec<u8>>)
    ensures
        bytes_result_view(r) == wasm_of_code_answer(json_view(*response), contract_id@),
{
    match first_entry_xdr(response) {
        FirstEntryXdr::MissingArray => {
            let mut msg = String::from_str("Invalid response for contract code ");
            msg.append(contract_id);
            Err(GratError::ContractNotFound(msg))
        },
        FirstEntryXdr::Empty => Err(GratError::ContractNotFound(String::from_str(contract_id))),
        FirstEntryXdr::MissingXdr => {
            let mut msg = String::from_str("Missing XDR in response for contract code ");
            msg.append(contract_id);
            Err(GratError::SpecError(msg))
        },
        FirstEntryXdr::Xdr(x) => match decode_ledger_entry_base64(x.as_str(), XDR_READ_DEPTH) {
            Err(e) => Err(GratError::XdrError(e)),
            Ok(LedgerEntryShape::ContractCode(code)) => Ok(code),
            Ok(_) => Err(GratError::SpecError(String::from_str("Ledger entry is not a contract code entry"))),
        },
    }
}

/// The view of an optional string.
pub open spec fn opt_string_view(s: Option<String>) -> Option<Seq<char>> {
    match s {
        Some(t) => Some(t@),
        None => None,
    }
}

/// Resolves an error code against the specification in a contract's WASM:
/// the name and doc comment of the first error variant with that code, or
/// an error when the WASM has no specification or the code is not in it.
pub fn resolve_from_wasm(wasm_bytes: &[u8], contract_id: &str, error_code: u32) -> (r: GratResult<(String, Option<String>)>)
    ensures
        match spec_section(wasm_payloads(wasm_bytes@).0, wasm_payloads(wasm_bytes@).1) {
            Err(e) => r matches Err(err) && error_view(err) == e,
            Ok(section) => match first_error_with(spec_errors(entries_before_failure(spec_entries_of(section, XDR_READ_DEPTH))), error_code) {
                Some(e) => r matches Ok((name, doc)) && name@ == e.1 && opt_string_view(doc) == e.2,
                None => r matches Err(err) && error_view(err) == ErrorView::SpecError(
                    "Error code "@ + decimal_digits(error_code as nat) + " not found in contract "@ + contract_id@
                        + " spec"@,
                ),
            },
        },
{
    let spec = match decode_contract_spec(wasm_bytes) {
        Ok(s) => s,
        Err(e) => {
            return Err(e);
        },
    };
    let found = resolve_error_code(&spec, error_code);
    proof {
        let ev = errors_view(spec.errors@);
        match found {
            Some(e) => {
                let i = choose|i: int|
                    0 <= i < spec.errors@.len() && spec.errors@[i] == *e && e.code == error_code && forall|j: int|
                        0 <= j < i ==> #[trigger] spec.errors@[j].code != error_code;
                assert forall|j: int| 0 <= j < i implies #[trigger] ev[j].0 != error_code by {
                    assert(ev[j].0 == spec.errors@[j].code);
                }
                lemma_first_error_found(ev, error_code, i);
            },
            None => {
                assert forall|j: int| 0 <= j < ev.len() implies #[trigger] ev[j].0 != error_code by {
                    assert(ev[j].0 == spec.errors@[j].code);
                }
                lemma_first_error_absent(ev, error_code);
            },
        }
    }
    match found {
        Some(entry) => {
            let doc = match &entry.doc {
                Some(d) => Some(d.clone()),
                None => None,
            };
            Ok((entry.name.clone(), doc))
        },
        None => {
            let mut msg = String::from_str("Error code ");
            let n = u64_to_decimal(error_code as u64);
            msg.append(n.as_str());
            msg.append(" not found in contract ");
            msg.append(contract_id);
            msg.append(" spec");
            Err(GratError::SpecError(msg))
        },
    }
}

/// The answer of a resolution: the resolved name and doc comment, or, when
/// resolution failed, the code in decimal and no doc comment.
pub fn resolution_or_fallback(resolved: GratResult<(String, Option<String>)>, error_code: u32) -> (r: (String, Option<String>))
    ensures
        match resolved {
            Ok((name, doc)) => r.0@ == name@ && opt_string_view(r.1) == opt_string_view(doc),
            Err(_) => r.0@ == decimal_digits(error_code as nat) && r.1 is None,
        },
{
    match resolved {
        Ok((name, doc)) => (name, doc),
        Err(_) => (u64_to_decimal(error_code as u64), None),
    }
}

} // verus!
