//! The library's own model of the Soroban XDR values that its logic reads,
//! and the conversions that take `stellar_xdr`'s decoded values into it.

use vstd::prelude::*;
use stellar_xdr::curr as sx;
use stellar_xdr::curr::ScError;

verus! {

/// How deeply nested the XDR that the library reads may be, counted in
/// `stellar_xdr`'s nested reads (a vector value inside a vector value takes
/// several): `stellar_xdr` refuses input nested deeper, where reading it
/// could exhaust the stack.
pub const XDR_READ_DEPTH: u32 = 500;

/// An unsigned 128-bit integer split into two 64-bit halves.
#[derive(Debug, Clone, Copy, PartialEq, Eq)]
pub struct UInt128Parts {
    pub hi: u64,
    pub lo: u64,
}

/// A signed 128-bit integer split into a signed high and an unsigned low half.
#[derive(Debug, Clone, Copy, PartialEq, Eq)]
pub struct Int128Parts {
    pub hi: i64,
    pub lo: u64,
}

/// An unsigned 256-bit integer split into four 64-bit limbs, most significant first.
#[derive(Debug, Clone, Copy, PartialEq, Eq)]
pub struct UInt256Parts {
    pub hi_hi: u64,
    pub hi_lo: u64,
    pub lo_hi: u64,
    pub lo_lo: u64,
}

/// A signed 256-bit integer: a signed most significant limb and three unsigned limbs.
#[derive(Debug, Clone, Copy, PartialEq, Eq)]
pub struct Int256Parts {
    pub hi_hi: i64,
    pub hi_lo: u64,
    pub lo_hi: u64,
    pub lo_lo: u64,
}

/// The host error codes that accompany every error type but `Contract`.
#[derive(Debug, Clone, Copy, PartialEq, Eq)]
pub enum ErrorCode {
    ArithDomain,
    IndexBounds,
    InvalidInput,
    MissingValue,
    ExistingValue,
    ExceededLimit,
    InvalidAction,
    InternalError,
    UnexpectedType,
    UnexpectedSize,
}

/// An error value: its type, and a contract-defined or host error code.
#[derive(Debug, Clone, Copy, PartialEq, Eq)]
pub enum ErrorValue {
    Contract(u32),
    WasmVm(ErrorCode),
    Context(ErrorCode),
    Storage(ErrorCode),
    Object(ErrorCode),
    Crypto(ErrorCode),
    Events(ErrorCode),
    Budget(ErrorCode),
    Value(ErrorCode),
    Auth(ErrorCode),
}

/// An address: an account's ed25519 public key or a contract's hash.
#[derive(Debug, Clone, Copy, PartialEq, Eq)]
pub enum Address {
    Account([u8; 32]),
    Contract([u8; 32]),
}

/// What a contract instance executes.
#[derive(Debug, Clone, Copy, PartialEq, Eq)]
pub enum ContractExecutable {
    Wasm([u8; 32]),
    StellarAsset,
}

/// One entry of a map value.
#[derive(Debug, PartialEq, Eq)]
pub struct ScMapEntry {
    pub key: ScValue,
    pub val: ScValue,
}

/// A contract instance: its executable and its instance storage.
#[derive(Debug, PartialEq, Eq)]
pub struct ScContractInstance {
    pub executable: ContractExecutable,
    pub storage: Option<Vec<ScMapEntry>>,
}

/// A Soroban value. Strings and symbols hold their raw bytes.
#[derive(Debug, PartialEq, Eq)]
pub enum ScValue {
    Bool(bool),
    Void,
    Error(ErrorValue),
    U32(u32),
    I32(i32),
    U64(u64),
    I64(i64),
    Timepoint(u64),
    Duration(u64),
    U128(UInt128Parts),
    I128(Int128Parts),
    U256(UInt256Parts),
    I256(Int256Parts),
    Bytes(Vec<u8>),
    String(Vec<u8>),
    Symbol(Vec<u8>),
    Vec(Option<Vec<ScValue>>),
    MapVal(Option<Vec<ScMapEntry>>),
    Address(Address),
    LedgerKeyContractInstance,
    LedgerKeyNonce(i64),
    ContractInstance(ScContractInstance),
}

/// The credentials of an address in an authorization entry.
#[derive(Debug, PartialEq, Eq)]
pub struct SorobanAddressCredentials {
    pub address: Address,
    pub nonce: i64,
    pub signature_expiration_ledger: u32,
    pub signature: ScValue,
}

/// Who authorizes an invocation: the transaction's source account, or an
/// address with its own credentials.
#[derive(Debug, PartialEq, Eq)]
pub enum SorobanCredentials {
    SourceAccount,
    Address(SorobanAddressCredentials),
}

/// An authorization entry, as far as its credentials go.
#[derive(Debug, PartialEq, Eq)]
pub struct AuthorizationEntry {
    pub credentials: SorobanCredentials,
}

/// The outcome of an `InvokeHostFunction` operation.
#[derive(Debug, Clone, Copy, PartialEq, Eq)]
pub enum InvokeOutcome {
    Success([u8; 32]),
    Malformed,
    Trapped,
    ResourceLimitExceeded,
    EntryArchived,
    InsufficientRefundableFee,
}

/// The outcome of one operation: an `InvokeHostFunction` result, or any
/// other operation's result or operation-level failure.
#[derive(Debug, Clone, Copy, PartialEq, Eq)]
pub enum OperationResult {
    InvokeHostFunction(InvokeOutcome),
    Other,
}

/// The outcome of a transaction.
#[derive(Debug, Clone, PartialEq, Eq)]
pub enum TransactionResultResult {
    TxSuccess(Vec<OperationResult>),
    TxFailed(Vec<OperationResult>),
    TxFeeBumpInnerSuccess,
    /// A fee-bump whose inner transaction failed, or a transaction-level failure.
    Other,
}

/// A transaction result: the fee charged and the outcome.
#[derive(Debug, Clone, PartialEq, Eq)]
pub struct TransactionResult {
    pub fee_charged: i64,
    pub result: TransactionResultResult,
}

/// The view of a transaction outcome: its operation results as a sequence.
pub enum ResultView {
    TxSuccess(Seq<OperationResult>),
    TxFailed(Seq<OperationResult>),
    TxFeeBumpInnerSuccess,
    Other,
}

/// The view of a transaction result: the fee charged and the outcome.
pub open spec fn tx_result_view(t: TransactionResult) -> (i64, ResultView) {
    (
        t.fee_charged,
        match t.result {
            TransactionResultResult::TxSuccess(ops) => ResultView::TxSuccess(ops@),
            TransactionResultResult::TxFailed(ops) => ResultView::TxFailed(ops@),
            TransactionResultResult::TxFeeBumpInnerSuccess => ResultView::TxFeeBumpInnerSuccess,
            TransactionResultResult::Other => ResultView::Other,
        },
    )
}

/// The kind of a contract event.
#[derive(Debug, Clone, Copy, PartialEq, Eq)]
pub enum ContractEventType {
    System,
    Contract,
    Diagnostic,
}

/// A diagnostic event: the emitting contract, the event's kind and topics,
/// and whether it was emitted within a successful contract call.
#[derive(Debug, PartialEq, Eq)]
pub struct DiagnosticEvent {
    pub in_successful_contract_call: bool,
    pub contract_id: Option<[u8; 32]>,
    pub event_type: ContractEventType,
    pub topics: Vec<ScValue>,
}

/// Takes a `stellar_xdr` value into the model, variant for variant and
/// field for field: here the scalars; the other variants go on to
/// `scval_model_wide`. These conversions are used only inside the wrappers
/// that read XDR, whose contracts cover the whole reading.
#[verifier::external_body]
pub(crate) fn scval_model(v: &sx::ScVal) -> ScValue {
    match v {
        sx::ScVal::Bool(b) => ScValue::Bool(*b),
        sx::ScVal::Void => ScValue::Void,
        sx::ScVal::U32(x) => ScValue::U32(*x),
        sx::ScVal::I32(x) => ScValue::I32(*x),
        sx::ScVal::U64(x) => ScValue::U64(*x),
        sx::ScVal::I64(x) => ScValue::I64(*x),
        sx::ScVal::Timepoint(t) => ScValue::Timepoint(t.0),
        sx::ScVal::Duration(d) => ScValue::Duration(d.0),
        sx::ScVal::LedgerKeyNonce(n) => ScValue::LedgerKeyNonce(n.nonce),
        _ => scval_model_wide(v),
    }
}

/// The wide integers of `scval_model`; the other variants go on to
/// `scval_model_nested`.
#[verifier::external_body]
fn scval_model_wide(v: &sx::ScVal) -> ScValue {
    match v {
        sx::ScVal::U128(p) => ScValue::U128(UInt128Parts { hi: p.hi, lo: p.lo }),
        sx::ScVal::I128(p) => ScValue::I128(Int128Parts { hi: p.hi, lo: p.lo }),
        sx::ScVal::U256(p) => ScValue::U256(UInt256Parts { hi_hi: p.hi_hi, hi_lo: p.hi_lo, lo_hi: p.lo_hi, lo_lo: p.lo_lo }),
        sx::ScVal::I256(p) => ScValue::I256(Int256Parts { hi_hi: p.hi_hi, hi_lo: p.hi_lo, lo_hi: p.lo_hi, lo_lo: p.lo_lo }),
        _ => scval_model_nested(v),
    }
}

/// The vectors and maps of `scval_model`; the other variants go on to
/// `scval_model_rest`.
#[verifier::external_body]
fn scval_model_nested(v: &sx::ScVal) -> ScValue {
    match v {
        sx::ScVal::Vec(items) => ScValue::Vec(items.as_ref().map(|v| v.0.iter().map(scval_model).collect())),
        sx::ScVal::Map(m) => ScValue::MapVal(m.as_ref().map(map_entries_model)),
        _ => scval_model_rest(v),
    }
}

/// The entries of a `stellar_xdr` map, each key and value taken into the
/// model, in order.
#[verifier::external_body]
fn map_entries_model(m: &sx::ScMap) -> Vec<ScMapEntry> {
    m.0.iter().map(|e| ScMapEntry { key: scval_model(&e.key), val: scval_model(&e.val) }).collect()
}

/// The byte strings, errors and addresses of `scval_model`; the other
/// variants go on to `scval_model_instance`.
#[verifier::external_body]
fn scval_model_rest(v: &sx::ScVal) -> ScValue {
    match v {
        sx::ScVal::Bytes(b) => ScValue::Bytes(b.0.to_vec()),
        sx::ScVal::String(t) => ScValue::String(t.0.to_vec()),
        sx::ScVal::Symbol(t) => ScValue::Symbol(t.0.to_vec()),
        sx::ScVal::Error(e) => ScValue::Error(error_model(e)),
        sx::ScVal::Address(a) => ScValue::Address(address_model(a)),
        _ => scval_model_instance(v),
    }
}

/// The contract instances and the contract-instance key of `scval_model`;
/// the other variants go back to `scval_model`.
#[verifier::external_body]
fn scval_model_instance(v: &sx::ScVal) -> ScValue {
    match v {
        sx::ScVal::LedgerKeyContractInstance => ScValue::LedgerKeyContractInstance,
        sx::ScVal::ContractInstance(i) => ScValue::ContractInstance(ScContractInstance {
            executable: match &i.executable {
                sx::ContractExecutable::Wasm(h) => ContractExecutable::Wasm(h.0),
                sx::ContractExecutable::StellarAsset => ContractExecutable::StellarAsset,
            },
            storage: i.storage.as_ref().map(map_entries_model),
        }),
        _ => scval_model(v),
    }
}

/// Takes a `stellar_xdr` error value into the model, variant for variant.
#[verifier::external_body]
fn error_model(e: &ScError) -> ErrorValue {
    match e {
        ScError::Contract(c) => ErrorValue::Contract(*c),
        ScError::WasmVm(c) => ErrorValue::WasmVm(error_code_model(c)),
        ScError::Context(c) => ErrorValue::Context(error_code_model(c)),
        ScError::Storage(c) => ErrorValue::Storage(error_code_model(c)),
        ScError::Object(c) => ErrorValue::Object(error_code_model(c)),
        ScError::Crypto(c) => ErrorValue::Crypto(error_code_model(c)),
        ScError::Events(c) => ErrorValue::Events(error_code_model(c)),
        ScError::Budget(c) => ErrorValue::Budget(error_code_model(c)),
        ScError::Value(c) => ErrorValue::Value(error_code_model(c)),
        ScError::Auth(c) => ErrorValue::Auth(error_code_model(c)),
    }
}

/// Takes a `stellar_xdr` host error code into the model, variant for variant.
#[verifier::external_body]
fn error_code_model(c: &sx::ScErrorCode) -> ErrorCode {
    match c {
        sx::ScErrorCode::ArithDomain => ErrorCode::ArithDomain,
        sx::ScErrorCode::IndexBounds => ErrorCode::IndexBounds,
        sx::ScErrorCode::InvalidInput => ErrorCode::InvalidInput,
        sx::ScErrorCode::MissingValue => ErrorCode::MissingValue,
        sx::ScErrorCode::ExistingValue => ErrorCode::ExistingValue,
        sx::ScErrorCode::ExceededLimit => ErrorCode::ExceededLimit,
        sx::ScErrorCode::InvalidAction => ErrorCode::InvalidAction,
        sx::ScErrorCode::InternalError => ErrorCode::InternalError,
        sx::ScErrorCode::UnexpectedType => ErrorCode::UnexpectedType,
        sx::ScErrorCode::UnexpectedSize => ErrorCode::UnexpectedSize,
    }
}

/// Takes a `stellar_xdr` address into the model: an account's ed25519 key
/// or a contract's hash. Used only inside `scval_model` and
/// `auth_entry_model`.
#[verifier::external_body]
fn address_model(a: &sx::ScAddress) -> Address {
    match a {
        sx::ScAddress::Account(sx::AccountId(sx::PublicKey::PublicKeyTypeEd25519(k))) => Address::Account(k.0),
        sx::ScAddress::Contract(h) => Address::Contract(h.0),
    }
}

/// Takes a `stellar_xdr` authorization entry's credentials into the model,
/// field for field. It is used only inside the wrappers that read
/// authorization entries, whose contracts cover the whole reading.
#[verifier::external_body]
pub(crate) fn auth_entry_model(e: &sx::SorobanAuthorizationEntry) -> AuthorizationEntry {
    AuthorizationEntry {
        credentials: match &e.credentials {
            sx::SorobanCredentials::SourceAccount => SorobanCredentials::SourceAccount,
            sx::SorobanCredentials::Address(c) => SorobanCredentials::Address(SorobanAddressCredentials {
                address: address_model(&c.address),
                nonce: c.nonce,
                signature_expiration_ledger: c.signature_expiration_ledger,
                signature: scval_model(&c.signature),
            }),
        },
    }
}

} // verus!
