//! The bookkeeping of the contract-specification resolver: its statistics,
//! how a request waits for a fetch already under way, and where in a
//! `getLedgerEntries` answer the contract's WASM is found.

use vstd::prelude::*;
use crate::decode::ledger_entry::{
    decode_ledger_entry_bytes, first_entry_of, first_entry_xdr, ledger_entry_from_bytes,
    FirstEntry, FirstEntryXdr, LedgerEntryShape, ShapeView,
};
use crate::error::{ErrorView, GratError, GratResult};
use crate::json::{json_view, Json};
use crate::spec::decoder::bytes_result_view;
use crate::xdr::XDR_READ_DEPTH;
use base64::Engine;

verus! {

/// Statistics of the resolver's caches.
#[derive(Debug, Clone, Copy, PartialEq, Eq)]
pub struct ResolverStats {
    pub memory_cache_size: usize,
    pub pending_fetches: usize,
}

/// How many times a request checks a fetch already under way before it
/// starts its own.
pub const FETCH_POLLS: u32 = 50;

/// Milliseconds a request waits between two checks of a fetch under way.
pub const FETCH_POLL_INTERVAL_MS: u64 = 20;

/// What a request waiting on another request's fetch does next.
pub enum PollAction<T> {
    /// The fetch finished: take its result.
    Take(T),
    /// Wait `FETCH_POLL_INTERVAL_MS`, then check again.
    WaitAndCheck,
    /// Wait `FETCH_POLL_INTERVAL_MS`, then give up and fetch anew.
    WaitAndFetch,
}

/// Decides, after check number `checks_done` (counting from 0) of a fetch
/// under way, what the waiting request does: it takes a finished result,
/// checks again up to `FETCH_POLLS` checks in all, and then fetches anew.
pub fn poll_decision<T>(checks_done: u32, found: Option<T>) -> (a: PollAction<T>)
    requires
        checks_done < FETCH_POLLS,
    ensures
        match found {
            Some(v) => a == PollAction::Take(v),
            None => if checks_done + 1 < FETCH_POLLS {
                a is WaitAndCheck
            } else {
                a is WaitAndFetch
            },
        },
{
    match found {
        Some(v) => PollAction::Take(v),
        None => if checks_done + 1 < FETCH_POLLS {
            PollAction::WaitAndCheck
        } else {
            PollAction::WaitAndFetch
        },
    }
}

/// The `getLedgerEntries` key under which the resolver asks for a
/// contract's code.
pub fn contract_code_key(contract_id: &str) -> (k: String)
    ensures
        k@ == "contract_code/"@ + contract_id@,
{
    let mut k = String::from_str("contract_code/");
    k.append(contract_id);
    k
}

/// The WASM bytes a contract-code ledger entry holds, read from its XDR.
pub open spec fn wasm_of_entry_bytes(bytes: Seq<u8>) -> Result<Seq<u8>, ErrorView> {
    match ledger_entry_from_bytes(bytes, XDR_READ_DEPTH) {
        Err(e) => Err(ErrorView::XdrError("Failed to parse ledger entry XDR: "@ + e)),
        Ok(ShapeView::ContractCode(code)) => Ok(code),
        Ok(_) => Err(ErrorView::SpecError("Ledger entry is not a contract code entry"@)),
    }
}

/// Reads the WASM bytes out of a contract-code ledger entry's XDR.
pub fn extract_wasm_from_ledger_entry(xdr_bytes: &[u8]) -> (r: GratResult<Vec<u8>>)
    ensures
        bytes_result_view(r) == wasm_of_entry_bytes(xdr_bytes@),
{
    match decode_ledger_entry_bytes(xdr_bytes, XDR_READ_DEPTH) {
        Err(e) => {
            let mut msg = String::from_str("Failed to parse ledger entry XDR: ");
            msg.append(e.as_str());
            Err(GratError::XdrError(msg))
        },
        Ok(LedgerEntryShape::ContractCode(code)) => Ok(code),
        Ok(_) => Err(GratError::SpecError(String::from_str("Ledger entry is not a contract code entry"))),
    }
}

/// What `base64`'s standard engine decodes text to: the bytes, or the
/// message of its error.
pub uninterp spec fn base64_standard_decode(text: Seq<char>) -> Result<Seq<u8>, Seq<char>>;

/// Decodes base64 text with `base64::engine::general_purpose::STANDARD`.
/// The claim: the outcome is `base64_standard_decode(text)`, a function of
/// the text.
#[verifier::external_body]
pub(crate) fn decode_base64(text: &str) -> (r: Result<Vec<u8>, String>)
    ensures
        match r {
            Ok(b) => base64_standard_decode(text@) == Ok::<Seq<u8>, Seq<char>>(b@),
            Err(e) => base64_standard_decode(text@) == Err::<Seq<u8>, Seq<char>>(e@),
        },
{
    base64::engine::general_purpose::STANDARD.decode(text).map_err(|e| e.to_string())
}

/// The WASM of a contract, read from the `getLedgerEntries` answer for its
/// code key: the first entry's base64 XDR, decoded and read as a
/// contract-code entry.
pub open spec fn wasm_of_answer(v: crate::json::JsonValue, contract_id: Seq<char>) -> Result<Seq<u8>, ErrorView> {
    match first_entry_of(v) {
        FirstEntry::MissingArray => Err(ErrorView::ContractNotFound("Invalid response for contract "@ + contract_id)),
        FirstEntry::Empty => Err(ErrorView::ContractNotFound(contract_id)),
        FirstEntry::MissingXdr => Err(ErrorView::SpecError("Missing XDR in response for contract "@ + contract_id)),
        FirstEntry::Xdr(x) => match base64_standard_decode(x) {
            Err(e) => Err(ErrorView::SpecError("Failed to decode base64 XDR: "@ + e)),
            Ok(bytes) => wasm_of_entry_bytes(bytes),
        },
    }
}

/// Reads a contract's WASM out of the `getLedgerEntries` answer for its
/// code key.
pub fn wasm_from_answer(response: &Json, contract_id: &str) -> (r: GratResult<Vec<u8>>)
    ensures
        bytes_result_view(r) == wasm_of_answer(json_view(*response), contract_id@),
{
    match first_entry_xdr(response) {
        FirstEntryXdr::MissingArray => {
            let mut msg = String::from_str("Invalid response for contract ");
            msg.append(contract_id);
            Err(GratError::ContractNotFound(msg))
        },
        FirstEntryXdr::Empty => Err(GratError::ContractNotFound(String::from_str(contract_id))),
        FirstEntryXdr::MissingXdr => {
            let mut msg = String::from_str("Missing XDR in response for contract ");
            msg.append(contract_id);
            Err(GratError::SpecError(msg))
        },
        FirstEntryXdr::Xdr(x) => match decode_base64(x.as_str()) {
            Err(e) => {
                let mut msg = String::from_str("Failed to decode base64 XDR: ");
                msg.append(e.as_str());
                Err(GratError::SpecError(msg))
            },
            Ok(bytes) => extract_wasm_from_ledger_entry(bytes.as_slice()),
        },
    }
}

} // verus!
