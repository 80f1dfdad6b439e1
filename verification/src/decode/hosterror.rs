//! Host errors: their categories, one-line summaries, and classification of
//! failed transaction results.

use vstd::prelude::*;
use crate::decode::mappings::{auth, budget, context, contract, crypto, events, object, storage, value, wasm};
use crate::error::{GratError, GratResult};
use crate::json::{clone_json, get_str_member, json_view, str_member, Json, JsonValue};
use crate::taxonomy::schema::ErrorCategory;
use crate::text::{ascii_lowercase, decimal_digits, is_ascii_text, lowercase, push_decimal_u128, str_equals, str_to_lowercase};
use crate::xdr::{tx_result_view, InvokeOutcome, OperationResult, ResultView, TransactionResult, TransactionResultResult};
use stellar_xdr::curr as sx;
use stellar_xdr::curr::ReadXdr;

verus! {

/// Every Soroban host error category, plus contract-specific and unknown errors.
#[derive(Debug, Clone, PartialEq)]
pub enum HostError {
    Budget { code: u32 },
    Storage { code: u32 },
    Auth { code: u32 },
    Context { code: u32 },
    Value { code: u32 },
    Object { code: u32 },
    Crypto { code: u32 },
    Contract { code: u32 },
    Wasm { code: u32 },
    Events { code: u32 },
    /// An error defined by a specific deployed contract.
    ContractSpecific { contract_id: Option<String>, code: u32 },
    /// An unrecognised error, kept for forward compatibility.
    Unknown { type_code: u32, sub_code: u32 },
}

/// The human-readable name of an error's category.
pub open spec fn category_name_of(e: HostError) -> Seq<char> {
    match e {
        HostError::Budget { .. } => "Budget"@,
        HostError::Storage { .. } => "Storage"@,
        HostError::Auth { .. } => "Auth"@,
        HostError::Context { .. } => "Context"@,
        HostError::Value { .. } => "Value"@,
        HostError::Object { .. } => "Object"@,
        HostError::Crypto { .. } => "Crypto"@,
        HostError::Contract { .. } => "Contract"@,
        HostError::Wasm { .. } => "Wasm"@,
        HostError::Events { .. } => "Events"@,
        HostError::ContractSpecific { .. } => "ContractSpecific"@,
        HostError::Unknown { .. } => "Unknown"@,
    }
}

/// The summary of a categorised code: the tag and the code's name, or the
/// tag and the number when the code has no documented name.
pub open spec fn tagged_summary(tag: Seq<char>, name: Option<Seq<char>>, code: u32) -> Seq<char> {
    match name {
        Some(n) => tag + n,
        None => tag + "Code "@ + decimal_digits(code as nat),
    }
}

/// The documented name of a code of a host error category.
pub open spec fn code_name(e: HostError) -> Option<Seq<char>> {
    match e {
        HostError::Budget { code } => match budget::budget_error_detail(code) {
            Some(d) => Some(d.name@),
            None => None,
        },
        HostError::Storage { code } => match storage::storage_error_detail(code) {
            Some(d) => Some(d.name@),
            None => None,
        },
        HostError::Auth { code } => match auth::auth_error_detail(code) {
            Some(d) => Some(d.name@),
            None => None,
        },
        HostError::Context { code } => match context::context_error_detail(code) {
            Some(d) => Some(d.name@),
            None => None,
        },
        HostError::Value { code } => match value::value_error_detail(code) {
            Some(d) => Some(d.name@),
            None => None,
        },
        HostError::Object { code } => match object::object_error_detail(code) {
            Some(d) => Some(d.name@),
            None => None,
        },
        HostError::Crypto { code } => match crypto::crypto_error_detail(code) {
            Some(d) => Some(d.name@),
            None => None,
        },
        HostError::Contract { code } => match contract::contract_error_detail(code) {
            Some(d) => Some(d.name@),
            None => None,
        },
        HostError::Wasm { code } => match wasm::wasm_error_detail(code) {
            Some(d) => Some(d.name@),
            None => None,
        },
        HostError::Events { code } => match events::events_error_detail(code) {
            Some(d) => Some(d.name@),
            None => None,
        },
        _ => None,
    }
}

/// The one-line summary of an error.
pub open spec fn summary_of(e: HostError) -> Seq<char> {
    match e {
        HostError::Budget { code } => tagged_summary("[BUDGET] "@, code_name(e), code),
        HostError::Storage { code } => tagged_summary("[STORAGE] "@, code_name(e), code),
        HostError::Auth { code } => tagged_summary("[AUTH] "@, code_name(e), code),
        HostError::Context { code } => tagged_summary("[CONTEXT] "@, code_name(e), code),
        HostError::Value { code } => tagged_summary("[VALUE] "@, code_name(e), code),
        HostError::Object { code } => tagged_summary("[OBJECT] "@, code_name(e), code),
        HostError::Crypto { code } => tagged_summary("[CRYPTO] "@, code_name(e), code),
        HostError::Contract { code } => tagged_summary("[CONTRACT] "@, code_name(e), code),
        HostError::Wasm { code } => tagged_summary("[WASM] "@, code_name(e), code),
        HostError::Events { code } => tagged_summary("[EVENTS] "@, code_name(e), code),
        HostError::ContractSpecific { contract_id, code } => "[CONTRACT] "@ + match contract_id {
            Some(id) => id@,
            None => "unknown"@,
        } + " ("@ + decimal_digits(code as nat) + ")"@,
        HostError::Unknown { type_code, sub_code } => "[UNKNOWN] "@ + decimal_digits(type_code as nat)
            + ":"@ + decimal_digits(sub_code as nat),
    }
}

/// Appends the summary of a categorised code to `out`.
fn push_tagged_summary(out: &mut String, tag: &str, name: Option<&str>, code: u32)
    ensures
        final(out)@ == old(out)@ + tagged_summary(tag@, match name {
            Some(n) => Some(n@),
            None => None,
        }, code),
{
    let ghost start = out@;
    out.append(tag);
    match name {
        Some(n) => {
            out.append(n);
            assert(out@ =~= start + (tag@ + n@));
        },
        None => {
            out.append("Code ");
            push_decimal_u128(out, code as u128);
            assert(out@ =~= start + (tag@ + "Code "@ + decimal_digits(code as nat)));
        },
    }
}

impl HostError {
    /// The human-readable category name.
    pub fn category_name(&self) -> (s: &str)
        ensures
            s@ == category_name_of(*self),
    {
        match self {
            HostError::Budget { .. } => "Budget",
            HostError::Storage { .. } => "Storage",
            HostError::Auth { .. } => "Auth",
            HostError::Context { .. } => "Context",
            HostError::Value { .. } => "Value",
            HostError::Object { .. } => "Object",
            HostError::Crypto { .. } => "Crypto",
            HostError::Contract { .. } => "Contract",
            HostError::Wasm { .. } => "Wasm",
            HostError::Events { .. } => "Events",
            HostError::ContractSpecific { .. } => "ContractSpecific",
            HostError::Unknown { .. } => "Unknown",
        }
    }

    /// A one-line summary: `[CATEGORY] Name` for a documented code,
    /// `[CATEGORY] Code N` otherwise, `[CONTRACT] id (code)` for a
    /// contract-specific error and `[UNKNOWN] type:sub` for an unknown one.
    pub fn summary(&self) -> (s: String)
        ensures
            s@ == summary_of(*self),
    {
        let mut out = String::new();
        match self {
            HostError::Budget { code } => {
                let name = match budget::lookup(*code) {
                    Some(d) => Some(d.name),
                    None => None,
                };
                push_tagged_summary(&mut out, "[BUDGET] ", name, *code);
            },
            HostError::Storage { code } => {
                let name = match storage::lookup(*code) {
                    Some(d) => Some(d.name),
                    None => None,
                };
                push_tagged_summary(&mut out, "[STORAGE] ", name, *code);
            },
            HostError::Auth { code } => {
                let name = match auth::lookup(*code) {
                    Some(d) => Some(d.name),
                    None => None,
                };
                push_tagged_summary(&mut out, "[AUTH] ", name, *code);
            },
            HostError::Context { code } => {
                let name = match context::lookup(*code) {
                    Some(d) => Some(d.name),
                    None => None,
                };
                push_tagged_summary(&mut out, "[CONTEXT] ", name, *code);
            },
            HostError::Value { code } => {
                let name = match value::lookup(*code) {
                    Some(d) => Some(d.name),
                    None => None,
                };
                push_tagged_summary(&mut out, "[VALUE] ", name, *code);
            },
            HostError::Object { code } => {
                let name = match object::resolve_object_error(*code) {
                    Some(d) => Some(d.name),
                    None => None,
                };
                push_tagged_summary(&mut out, "[OBJECT] ", name, *code);
            },
            HostError::Crypto { code } => {
                let name = match crypto::lookup(*code) {
                    Some(d) => Some(d.name),
                    None => None,
                };
                push_tagged_summary(&mut out, "[CRYPTO] ", name, *code);
            },
            HostError::Contract { code } => {
                let name = match contract::lookup(*code) {
                    Some(d) => Some(d.name),
                    None => None,
                };
                push_tagged_summary(&mut out, "[CONTRACT] ", name, *code);
            },
            HostError::Wasm { code } => {
                let name = match wasm::lookup(*code) {
                    Some(d) => Some(d.name),
                    None => None,
                };
                push_tagged_summary(&mut out, "[WASM] ", name, *code);
            },
            HostError::Events { code } => {
                let name = match events::lookup(*code) {
                    Some(d) => Some(d.name),
                    None => None,
                };
                push_tagged_summary(&mut out, "[EVENTS] ", name, *code);
            },
            HostError::ContractSpecific { contract_id, code } => {
                out.append("[CONTRACT] ");
                match contract_id {
                    Some(id) => out.append(id.as_str()),
                    None => out.append("unknown"),
                }
                out.append(" (");
                push_decimal_u128(&mut out, *code as u128);
                out.append(")");
                assert(out@ =~= summary_of(*self));
            },
            HostError::Unknown { type_code, sub_code } => {
                out.append("[UNKNOWN] ");
                push_decimal_u128(&mut out, *type_code as u128);
                out.append(":");
                push_decimal_u128(&mut out, *sub_code as u128);
                assert(out@ =~= summary_of(*self));
            },
        }
        out
    }
}

/// The category named by an already lowercased string.
pub open spec fn category_of_lowercase(s: Seq<char>) -> Option<ErrorCategory> {
    if s == "budget"@ {
        Some(ErrorCategory::Budget)
    } else if s == "storage"@ {
        Some(ErrorCategory::Storage)
    } else if s == "auth"@ {
        Some(ErrorCategory::Auth)
    } else if s == "context"@ {
        Some(ErrorCategory::Context)
    } else if s == "value"@ {
        Some(ErrorCategory::Value)
    } else if s == "object"@ {
        Some(ErrorCategory::Object)
    } else if s == "crypto"@ {
        Some(ErrorCategory::Crypto)
    } else if s == "contract"@ {
        Some(ErrorCategory::Contract)
    } else if s == "wasm"@ {
        Some(ErrorCategory::Wasm)
    } else if s == "events"@ {
        Some(ErrorCategory::Events)
    } else {
        None
    }
}

/// The category of a categorised host error; none for a contract-specific
/// or unknown error.
pub open spec fn host_category(e: HostError) -> Option<ErrorCategory> {
    match e {
        HostError::Budget { .. } => Some(ErrorCategory::Budget),
        HostError::Storage { .. } => Some(ErrorCategory::Storage),
        HostError::Auth { .. } => Some(ErrorCategory::Auth),
        HostError::Context { .. } => Some(ErrorCategory::Context),
        HostError::Value { .. } => Some(ErrorCategory::Value),
        HostError::Object { .. } => Some(ErrorCategory::Object),
        HostError::Crypto { .. } => Some(ErrorCategory::Crypto),
        HostError::Contract { .. } => Some(ErrorCategory::Contract),
        HostError::Wasm { .. } => Some(ErrorCategory::Wasm),
        HostError::Events { .. } => Some(ErrorCategory::Events),
        _ => None,
    }
}

/// ASCII lowercasing keeps text ASCII, and lowercasing twice is lowercasing
/// once.
pub proof fn law_ascii_lowercase_idempotent(s: Seq<char>)
    requires
        is_ascii_text(s),
    ensures
        is_ascii_text(ascii_lowercase(s)),
        ascii_lowercase(ascii_lowercase(s)) == ascii_lowercase(s),
{
    let l = ascii_lowercase(s);
    assert forall|i: int| 0 <= i < l.len() implies (#[trigger] l[i] as u32) < 128 by {
        assert((s[i] as u32) < 128);
    }
    assert(ascii_lowercase(l) =~= l);
}

/// The name of each categorised host error parses back, in any letter case,
/// to its category; a contract-specific or unknown error's name parses to
/// none.
pub proof fn law_category_names_parse_back(e: HostError)
    ensures
        is_ascii_text(category_name_of(e)),
        category_of_lowercase(ascii_lowercase(category_name_of(e))) == host_category(e),
{
    reveal_strlit("Budget");
    reveal_strlit("budget");
    reveal_strlit("Storage");
    reveal_strlit("storage");
    reveal_strlit("Auth");
    reveal_strlit("auth");
    reveal_strlit("Context");
    reveal_strlit("context");
    reveal_strlit("Value");
    reveal_strlit("value");
    reveal_strlit("Object");
    reveal_strlit("object");
    reveal_strlit("Crypto");
    reveal_strlit("crypto");
    reveal_strlit("Contract");
    reveal_strlit("contract");
    reveal_strlit("Wasm");
    reveal_strlit("wasm");
    reveal_strlit("Events");
    reveal_strlit("events");
    reveal_strlit("ContractSpecific");
    reveal_strlit("Unknown");
    let name = category_name_of(e);
    assert forall|i: int| 0 <= i < name.len() implies (#[trigger] name[i] as u32) < 128 by {}
    match e {
        HostError::Budget { .. } => {
            assert(ascii_lowercase("Budget"@) =~= "budget"@);
            assert(category_of_lowercase("budget"@) == host_category(e));
        },
        HostError::Storage { .. } => {
            assert(ascii_lowercase("Storage"@) =~= "storage"@);
            assert(category_of_lowercase("storage"@) == host_category(e));
        },
        HostError::Auth { .. } => {
            assert(ascii_lowercase("Auth"@) =~= "auth"@);
            assert(category_of_lowercase("auth"@) == host_category(e));
        },
        HostError::Context { .. } => {
            assert(ascii_lowercase("Context"@) =~= "context"@);
            assert("context"@[0] != "storage"@[0]);
            assert(category_of_lowercase("context"@) == host_category(e));
        },
        HostError::Value { .. } => {
            assert(ascii_lowercase("Value"@) =~= "value"@);
            assert(category_of_lowercase("value"@) == host_category(e));
        },
        HostError::Object { .. } => {
            assert(ascii_lowercase("Object"@) =~= "object"@);
            assert("object"@[0] != "budget"@[0]);
            assert(category_of_lowercase("object"@) == host_category(e));
        },
        HostError::Crypto { .. } => {
            assert(ascii_lowercase("Crypto"@) =~= "crypto"@);
            assert("crypto"@[0] != "budget"@[0] && "crypto"@[0] != "object"@[0]);
            assert(category_of_lowercase("crypto"@) == host_category(e));
        },
        HostError::Contract { .. } => {
            assert(ascii_lowercase("Contract"@) =~= "contract"@);
            assert(category_of_lowercase("contract"@) == host_category(e));
        },
        HostError::Wasm { .. } => {
            assert(ascii_lowercase("Wasm"@) =~= "wasm"@);
            assert("wasm"@[0] != "auth"@[0]);
            assert(category_of_lowercase("wasm"@) == host_category(e));
        },
        HostError::Events { .. } => {
            assert(ascii_lowercase("Events"@) =~= "events"@);
            assert("events"@[0] != "budget"@[0] && "events"@[0] != "object"@[0] && "events"@[0] != "crypto"@[0]);
            assert(category_of_lowercase("events"@) == host_category(e));
        },
        HostError::ContractSpecific { .. } => {
            let l = ascii_lowercase("ContractSpecific"@);
            assert(l.len() == 16);
        },
        HostError::Unknown { .. } => {
            let l = ascii_lowercase("Unknown"@);
            reveal_strlit("unknown");
            assert(l =~= "unknown"@);
            assert(l[0] != "storage"@[0] && l[0] != "context"@[0]);
        },
    }
}

/// The numeric code of a categorised host error.
pub open spec fn host_code(e: HostError) -> u32 {
    match e {
        HostError::Budget { code } => code,
        HostError::Storage { code } => code,
        HostError::Auth { code } => code,
        HostError::Context { code } => code,
        HostError::Value { code } => code,
        HostError::Object { code } => code,
        HostError::Crypto { code } => code,
        HostError::Contract { code } => code,
        HostError::Wasm { code } => code,
        HostError::Events { code } => code,
        HostError::ContractSpecific { code, .. } => code,
        HostError::Unknown { sub_code, .. } => sub_code,
    }
}

/// Splitting a tagged summary at the end of its tag.
proof fn lemma_split_tagged(tag: Seq<char>, name: Seq<char>, e: HostError)
    requires
        summary_of(e) == tagged_summary(tag, code_name(e), host_code(e)),
        tag.len() == name.len() + 3,
        ascii_lowercase(tag) == "["@ + ascii_lowercase(name) + "] "@,
    ensures
        summary_of(e).len() >= name.len() + 3,
        ascii_lowercase(summary_of(e).take(name.len() + 3int)) == "["@ + ascii_lowercase(name) + "] "@,
        summary_of(e).skip(name.len() + 3int) == match code_name(e) {
            Some(n) => n,
            None => "Code "@ + decimal_digits(host_code(e) as nat),
        },
{
    let rest = match code_name(e) {
        Some(n) => n,
        None => "Code "@ + decimal_digits(host_code(e) as nat),
    };
    assert(summary_of(e) =~= tag + rest);
    assert((tag + rest).take(tag.len() as int) =~= tag);
    assert((tag + rest).skip(tag.len() as int) =~= rest);
}

/// The one-line summary of a categorised host error is its category's name,
/// in capitals and brackets, then the documented name of its code, or
/// `Code ` and the number when the code has no documented name.
pub proof fn law_summary_names_category_and_code(e: HostError)
    requires
        host_category(e) is Some,
    ensures
        summary_of(e).len() >= category_name_of(e).len() + 3,
        ascii_lowercase(summary_of(e).take(category_name_of(e).len() + 3int)) == "["@ + ascii_lowercase(
            category_name_of(e),
        ) + "] "@,
        summary_of(e).skip(category_name_of(e).len() + 3int) == match code_name(e) {
            Some(n) => n,
            None => "Code "@ + decimal_digits(host_code(e) as nat),
        },
{
    reveal_strlit("[");
    reveal_strlit("] ");
    let name = category_name_of(e);
    match e {
        HostError::Budget { .. } => {
            reveal_strlit("Budget");
            reveal_strlit("[BUDGET] ");
            assert(ascii_lowercase("[BUDGET] "@) =~= "["@ + ascii_lowercase(name) + "] "@);
            lemma_split_tagged("[BUDGET] "@, name, e);
        },
        HostError::Storage { .. } => {
            reveal_strlit("Storage");
            reveal_strlit("[STORAGE] ");
            assert(ascii_lowercase("[STORAGE] "@) =~= "["@ + ascii_lowercase(name) + "] "@);
            lemma_split_tagged("[STORAGE] "@, name, e);
        },
        HostError::Auth { .. } => {
            reveal_strlit("Auth");
            reveal_strlit("[AUTH] ");
            assert(ascii_lowercase("[AUTH] "@) =~= "["@ + ascii_lowercase(name) + "] "@);
            lemma_split_tagged("[AUTH] "@, name, e);
        },
        HostError::Context { .. } => {
            reveal_strlit("Context");
            reveal_strlit("[CONTEXT] ");
            assert(ascii_lowercase("[CONTEXT] "@) =~= "["@ + ascii_lowercase(name) + "] "@);
            lemma_split_tagged("[CONTEXT] "@, name, e);
        },
        HostError::Value { .. } => {
            reveal_strlit("Value");
            reveal_strlit("[VALUE] ");
            assert(ascii_lowercase("[VALUE] "@) =~= "["@ + ascii_lowercase(name) + "] "@);
            lemma_split_tagged("[VALUE] "@, name, e);
        },
        HostError::Object { .. } => {
            reveal_strlit("Object");
            reveal_strlit("[OBJECT] ");
            assert(ascii_lowercase("[OBJECT] "@) =~= "["@ + ascii_lowercase(name) + "] "@);
            lemma_split_tagged("[OBJECT] "@, name, e);
        },
        HostError::Crypto { .. } => {
            reveal_strlit("Crypto");
            reveal_strlit("[CRYPTO] ");
            assert(ascii_lowercase("[CRYPTO] "@) =~= "["@ + ascii_lowercase(name) + "] "@);
            lemma_split_tagged("[CRYPTO] "@, name, e);
        },
        HostError::Contract { .. } => {
            reveal_strlit("Contract");
            reveal_strlit("[CONTRACT] ");
            assert(ascii_lowercase("[CONTRACT] "@) =~= "["@ + ascii_lowercase(name) + "] "@);
            lemma_split_tagged("[CONTRACT] "@, name, e);
        },
        HostError::Wasm { .. } => {
            reveal_strlit("Wasm");
            reveal_strlit("[WASM] ");
            assert(ascii_lowercase("[WASM] "@) =~= "["@ + ascii_lowercase(name) + "] "@);
            lemma_split_tagged("[WASM] "@, name, e);
        },
        HostError::Events { .. } => {
            reveal_strlit("Events");
            reveal_strlit("[EVENTS] ");
            assert(ascii_lowercase("[EVENTS] "@) =~= "["@ + ascii_lowercase(name) + "] "@);
            lemma_split_tagged("[EVENTS] "@, name, e);
        },
        _ => {},
    }
}

/// Maps an already lowercased category string to its category.
pub fn category_from_lowercase(s: &str) -> (r: Option<ErrorCategory>)
    ensures
        r == category_of_lowercase(s@),
{
    if str_equals(s, "budget") {
        Some(ErrorCategory::Budget)
    } else if str_equals(s, "storage") {
        Some(ErrorCategory::Storage)
    } else if str_equals(s, "auth") {
        Some(ErrorCategory::Auth)
    } else if str_equals(s, "context") {
        Some(ErrorCategory::Context)
    } else if str_equals(s, "value") {
        Some(ErrorCategory::Value)
    } else if str_equals(s, "object") {
        Some(ErrorCategory::Object)
    } else if str_equals(s, "crypto") {
        Some(ErrorCategory::Crypto)
    } else if str_equals(s, "contract") {
        Some(ErrorCategory::Contract)
    } else if str_equals(s, "wasm") {
        Some(ErrorCategory::Wasm)
    } else if str_equals(s, "events") {
        Some(ErrorCategory::Events)
    } else {
        None
    }
}

/// Maps a category string, in any letter case, to its category.
pub fn parse_error_category(category_str: &str) -> (r: Option<ErrorCategory>)
    ensures
        r == category_of_lowercase(lowercase(category_str@)),
        is_ascii_text(category_str@) ==> r == category_of_lowercase(ascii_lowercase(category_str@)),
{
    let lower = str_to_lowercase(category_str);
    category_from_lowercase(lower.as_str())
}

/// Classified error information extracted from a transaction result.
#[derive(Debug, PartialEq)]
pub struct ClassifiedError {
    pub category: ErrorCategory,
    pub error_code: u32,
    pub is_contract_error: bool,
    pub contract_id: Option<String>,
    pub raw_data: Json,
}

/// The first `InvokeHostFunction` result among operation results.
pub open spec fn first_invoke_result(ops: Seq<OperationResult>) -> Option<InvokeOutcome>
    decreases ops.len(),
{
    if ops.len() == 0 {
        None
    } else {
        match ops[0] {
            OperationResult::InvokeHostFunction(r) => Some(r),
            OperationResult::Other => first_invoke_result(ops.drop_first()),
        }
    }
}

/// The category of a failed `InvokeHostFunction` outcome.
pub open spec fn invoke_failure_category(r: InvokeOutcome) -> ErrorCategory {
    match r {
        InvokeOutcome::ResourceLimitExceeded => ErrorCategory::Budget,
        InvokeOutcome::EntryArchived => ErrorCategory::Storage,
        InvokeOutcome::Trapped => ErrorCategory::Contract,
        _ => ErrorCategory::Context,
    }
}

/// What classifying a transaction result gives: an error for a successful
/// or non-Soroban transaction, else the category of the first
/// `InvokeHostFunction` failure.
pub open spec fn classification(tx: TransactionResult) -> Result<ErrorCategory, GratError> {
    match tx.result {
        TransactionResultResult::TxSuccess(_) => Err(GratError::TransactionSucceeded),
        TransactionResultResult::TxFeeBumpInnerSuccess => Err(GratError::TransactionSucceeded),
        TransactionResultResult::Other => Err(GratError::NotSorobanTransaction),
        TransactionResultResult::TxFailed(ops) => match first_invoke_result(ops@) {
            None => Err(GratError::NotSorobanTransaction),
            Some(InvokeOutcome::Success(_)) => Err(GratError::TransactionSucceeded),
            Some(r) => Ok(invoke_failure_category(r)),
        },
    }
}

/// With only other operations before position `k`, the first
/// `InvokeHostFunction` result is the one at `k`.
proof fn lemma_first_invoke_at(ops: Seq<OperationResult>, k: int, outcome: InvokeOutcome)
    requires
        0 <= k < ops.len(),
        ops[k] == OperationResult::InvokeHostFunction(outcome),
        forall|i: int| 0 <= i < k ==> #[trigger] ops[i] == OperationResult::Other,
    ensures
        first_invoke_result(ops) == Some(outcome),
    decreases k,
{
    if k > 0 {
        let rest = ops.drop_first();
        assert(ops[0] == OperationResult::Other);
        assert forall|i: int| 0 <= i < k - 1 implies #[trigger] rest[i] == OperationResult::Other by {
            assert(rest[i] == ops[i + 1]);
        }
        lemma_first_invoke_at(rest, k - 1, outcome);
    }
}

/// A failed transaction whose first `InvokeHostFunction` operation failed
/// is classified by that failure: a trap as a contract error, an exceeded
/// resource limit as a budget error, an archived entry as a storage error,
/// and a malformed invocation or an insufficient refundable fee as a
/// context error. A successful invocation makes it no error to classify.
pub proof fn law_failed_invocations_are_classified(tx: TransactionResult, k: int, outcome: InvokeOutcome)
    requires
        tx.result matches TransactionResultResult::TxFailed(ops) && 0 <= k < ops@.len()
            && ops@[k] == OperationResult::InvokeHostFunction(outcome)
            && forall|i: int| 0 <= i < k ==> #[trigger] ops@[i] == OperationResult::Other,
    ensures
        outcome == InvokeOutcome::Trapped ==> classification(tx) == Ok::<ErrorCategory, GratError>(ErrorCategory::Contract),
        outcome == InvokeOutcome::ResourceLimitExceeded ==> classification(tx) == Ok::<ErrorCategory, GratError>(ErrorCategory::Budget),
        outcome == InvokeOutcome::EntryArchived ==> classification(tx) == Ok::<ErrorCategory, GratError>(ErrorCategory::Storage),
        outcome == InvokeOutcome::Malformed ==> classification(tx) == Ok::<ErrorCategory, GratError>(ErrorCategory::Context),
        outcome == InvokeOutcome::InsufficientRefundableFee ==> classification(tx) == Ok::<ErrorCategory, GratError>(ErrorCategory::Context),
        outcome is Success ==> classification(tx) == Err::<ErrorCategory, GratError>(GratError::TransactionSucceeded),
{
    match tx.result {
        TransactionResultResult::TxFailed(ops) => {
            lemma_first_invoke_at(ops@, k, outcome);
        },
        _ => {},
    }
}

/// Classifies a transaction result by its first `InvokeHostFunction` outcome.
pub fn from_transaction_result(tx_result: TransactionResult) -> (r: GratResult<ClassifiedError>)
    ensures
        match classification(tx_result) {
            Ok(category) => r matches Ok(c) && c.category == category && c.error_code == 0
                && !c.is_contract_error && c.contract_id is None && c.raw_data == Json::Null,
            Err(e) => r == Err::<ClassifiedError, GratError>(e),
        },
{
    let ops = match tx_result.result {
        TransactionResultResult::TxSuccess(_) => return Err(GratError::TransactionSucceeded),
        TransactionResultResult::TxFailed(ops) => ops,
        TransactionResultResult::TxFeeBumpInnerSuccess => return Err(GratError::TransactionSucceeded),
        TransactionResultResult::Other => return Err(GratError::NotSorobanTransaction),
    };
    let mut found: Option<InvokeOutcome> = None;
    let mut i: usize = 0;
    assert(ops@.skip(0) =~= ops@);
    while i < ops.len()
        invariant_except_break
            i <= ops@.len(),
            found is None,
            first_invoke_result(ops@) == first_invoke_result(ops@.skip(i as int)),
        ensures
            found matches Some(r) ==> first_invoke_result(ops@) == Some(r),
            found is None ==> first_invoke_result(ops@) is None,
        decreases ops@.len() - i,
    {
        assert(ops@.skip(i as int).drop_first() =~= ops@.skip(i + 1));
        match ops[i] {
            OperationResult::InvokeHostFunction(r) => {
                found = Some(r);
                break;
            },
            OperationResult::Other => {},
        }
        i = i + 1;
        proof {
            if i == ops@.len() {
                assert(ops@.skip(i as int).len() == 0);
            }
        }
    }
    let ihf = match found {
        Some(r) => r,
        None => return Err(GratError::NotSorobanTransaction),
    };
    let category = match ihf {
        InvokeOutcome::Success(_) => return Err(GratError::TransactionSucceeded),
        InvokeOutcome::Trapped => ErrorCategory::Contract,
        InvokeOutcome::ResourceLimitExceeded => ErrorCategory::Budget,
        InvokeOutcome::EntryArchived => ErrorCategory::Storage,
        InvokeOutcome::Malformed => ErrorCategory::Context,
        InvokeOutcome::InsufficientRefundableFee => ErrorCategory::Context,
    };
    Ok(ClassifiedError {
        category,
        error_code: 0,
        is_contract_error: false,
        contract_id: None,
        raw_data: Json::Null,
    })
}

/// The outcome of an `InvokeHostFunction` operation, as `stellar_xdr` holds it.
#[verifier::external_type_specification]
#[verifier::external_body]
pub struct ExInvokeHostFunctionResult(sx::InvokeHostFunctionResult);

/// Takes `stellar_xdr`'s `InvokeHostFunctionResult` into the library's
/// model, variant for variant. It is used only inside
/// `decode_transaction_result`, whose contract covers the whole reading.
#[verifier::external_body]
fn invoke_result_of(h: &sx::InvokeHostFunctionResult) -> InvokeOutcome {
    match h {
        sx::InvokeHostFunctionResult::Success(x) => InvokeOutcome::Success(x.0),
        sx::InvokeHostFunctionResult::Malformed => InvokeOutcome::Malformed,
        sx::InvokeHostFunctionResult::Trapped => InvokeOutcome::Trapped,
        sx::InvokeHostFunctionResult::ResourceLimitExceeded => InvokeOutcome::ResourceLimitExceeded,
        sx::InvokeHostFunctionResult::EntryArchived => InvokeOutcome::EntryArchived,
        sx::InvokeHostFunctionResult::InsufficientRefundableFee => InvokeOutcome::InsufficientRefundableFee,
    }
}

/// What `stellar_xdr` reads from base64 text as a `TransactionResult`
/// (no limits), in the library's model; `None` when it cannot be read.
pub uninterp spec fn transaction_result_from_base64(b64: Seq<char>) -> Option<(i64, ResultView)>;

/// Reads a `TransactionResult` from base64 XDR with `stellar_xdr`'s
/// `ReadXdr::from_xdr_base64` (no limits) and takes the fee and, per
/// operation, the `InvokeHostFunction` outcome. The claim: the outcome is
/// `transaction_result_from_base64(b64)`, a function of the text.
#[verifier::external_body]
pub(crate) fn decode_transaction_result(b64: &str) -> (r: Option<TransactionResult>)
    ensures
        match r {
            Some(t) => transaction_result_from_base64(b64@) == Some(tx_result_view(t)),
            None => transaction_result_from_base64(b64@) is None,
        },
{
    let t = sx::TransactionResult::from_xdr_base64(b64, sx::Limits::none()).ok()?;
    let op = |o: &sx::OperationResult| match o {
        sx::OperationResult::OpInner(sx::OperationResultTr::InvokeHostFunction(h)) => OperationResult::InvokeHostFunction(invoke_result_of(h)),
        _ => OperationResult::Other,
    };
    let result = match t.result {
        sx::TransactionResultResult::TxSuccess(ops) => TransactionResultResult::TxSuccess(ops.iter().map(op).collect()),
        sx::TransactionResultResult::TxFailed(ops) => TransactionResultResult::TxFailed(ops.iter().map(op).collect()),
        sx::TransactionResultResult::TxFeeBumpInnerSuccess(_) => TransactionResultResult::TxFeeBumpInnerSuccess,
        _ => TransactionResultResult::Other,
    };
    Some(TransactionResult { fee_charged: t.fee_charged, result })
}

/// The classification of a transaction result view, as `classification`
/// gives it for the result itself.
pub open spec fn view_classification(v: ResultView) -> Result<ErrorCategory, GratError> {
    match v {
        ResultView::TxSuccess(_) => Err(GratError::TransactionSucceeded),
        ResultView::TxFeeBumpInnerSuccess => Err(GratError::TransactionSucceeded),
        ResultView::Other => Err(GratError::NotSorobanTransaction),
        ResultView::TxFailed(ops) => match first_invoke_result(ops) {
            None => Err(GratError::NotSorobanTransaction),
            Some(InvokeOutcome::Success(_)) => Err(GratError::TransactionSucceeded),
            Some(r) => Ok(invoke_failure_category(r)),
        },
    }
}

/// How a transaction's JSON is classified: an error when its status is
/// `SUCCESS`; else by its `resultXdr`, when that reads as a transaction
/// result; else as an unclassified contract error.
pub open spec fn json_classification(v: JsonValue) -> Result<ErrorCategory, GratError> {
    if str_member(v, "status"@) == Some("SUCCESS"@) {
        Err(GratError::TransactionSucceeded)
    } else {
        match str_member(v, "resultXdr"@) {
            Some(b64) => match transaction_result_from_base64(b64) {
                Some((_, rv)) => view_classification(rv),
                None => Ok(ErrorCategory::Contract),
            },
            None => Ok(ErrorCategory::Contract),
        }
    }
}

/// A transaction whose status is `SUCCESS` has no error to classify. Any
/// other transaction is classified by its `resultXdr` when that reads as a
/// transaction result, and otherwise as a contract error.
pub proof fn law_transaction_json_classification(v: JsonValue)
    ensures
        str_member(v, "status"@) == Some("SUCCESS"@) ==> json_classification(v) == Err::<ErrorCategory, GratError>(
            GratError::TransactionSucceeded,
        ),
        str_member(v, "status"@) != Some("SUCCESS"@) && str_member(v, "resultXdr"@) is None
            ==> json_classification(v) == Ok::<ErrorCategory, GratError>(ErrorCategory::Contract),
        str_member(v, "status"@) != Some("SUCCESS"@) && str_member(v, "resultXdr"@) is Some
            && transaction_result_from_base64(str_member(v, "resultXdr"@)->0) is None ==> json_classification(v)
            == Ok::<ErrorCategory, GratError>(ErrorCategory::Contract),
        str_member(v, "status"@) != Some("SUCCESS"@) && str_member(v, "resultXdr"@) is Some
            && transaction_result_from_base64(str_member(v, "resultXdr"@)->0) is Some ==> json_classification(v)
            == view_classification((transaction_result_from_base64(str_member(v, "resultXdr"@)->0)->0).1),
{
}

/// Classifies the error of a transaction from its `getTransaction` JSON,
/// which the classification keeps as its raw data.
pub fn classify_error(tx_data: &Json) -> (r: GratResult<ClassifiedError>)
    ensures
        match json_classification(json_view(*tx_data)) {
            Ok(category) => r matches Ok(c) && c.category == category && c.error_code == 0
                && !c.is_contract_error && c.contract_id is None && json_view(c.raw_data) == json_view(*tx_data),
            Err(e) => r == Err::<ClassifiedError, GratError>(e),
        },
{
    let is_success = match get_str_member(tx_data, "status") {
        Some(s) => str_equals(s.as_str(), "SUCCESS"),
        None => false,
    };
    if is_success {
        return Err(GratError::TransactionSucceeded);
    }
    match get_str_member(tx_data, "resultXdr") {
        Some(b64) => {
            match decode_transaction_result(b64.as_str()) {
                Some(tx_result) => {
                    let ghost rv = tx_result_view(tx_result).1;
                    assert(classification(tx_result) == view_classification(rv));
                    let mut classified = match from_transaction_result(tx_result) {
                        Ok(c) => c,
                        Err(e) => {
                            return Err(e);
                        },
                    };
                    classified.raw_data = clone_json(tx_data);
                    return Ok(classified);
                },
                None => {},
            }
        },
        None => {},
    }
    Ok(ClassifiedError {
        category: ErrorCategory::Contract,
        error_code: 0,
        is_contract_error: false,
        contract_id: None,
        raw_data: clone_json(tx_data),
    })
}

} // verus!
