//! The library's error type.

use vstd::prelude::*;

verus! {

/// An error object returned by a JSON-RPC server.
#[derive(Debug, Clone, PartialEq, Eq)]
pub struct JsonRpcError {
    pub code: i64,
    pub message: String,
}

/// Everything that can go wrong while decoding, resolving or replaying.
#[derive(Debug, Clone, PartialEq, Eq)]
pub enum GratError {
    CacheError(String),
    TransactionSucceeded,
    NotSorobanTransaction,
    SpecError(String),
    ContractNotFound(String),
    RpcError(String),
    JsonRpc(JsonRpcError),
    XdrError(String),
    InvalidContractId(String),
    Internal(String),
    ReplayError(String),
    TaxonomyError(String),
}

/// The view of an error: its kind and its message.
pub enum ErrorView {
    CacheError(Seq<char>),
    TransactionSucceeded,
    NotSorobanTransaction,
    SpecError(Seq<char>),
    ContractNotFound(Seq<char>),
    RpcError(Seq<char>),
    JsonRpc(i64, Seq<char>),
    XdrError(Seq<char>),
    InvalidContractId(Seq<char>),
    Internal(Seq<char>),
    ReplayError(Seq<char>),
    TaxonomyError(Seq<char>),
}

/// The view of an error.
pub open spec fn error_view(e: GratError) -> ErrorView {
    match e {
        GratError::CacheError(m) => ErrorView::CacheError(m@),
        GratError::TransactionSucceeded => ErrorView::TransactionSucceeded,
        GratError::NotSorobanTransaction => ErrorView::NotSorobanTransaction,
        GratError::SpecError(m) => ErrorView::SpecError(m@),
        GratError::ContractNotFound(m) => ErrorView::ContractNotFound(m@),
        GratError::RpcError(m) => ErrorView::RpcError(m@),
        GratError::JsonRpc(j) => ErrorView::JsonRpc(j.code, j.message@),
        GratError::XdrError(m) => ErrorView::XdrError(m@),
        GratError::InvalidContractId(m) => ErrorView::InvalidContractId(m@),
        GratError::Internal(m) => ErrorView::Internal(m@),
        GratError::ReplayError(m) => ErrorView::ReplayError(m@),
        GratError::TaxonomyError(m) => ErrorView::TaxonomyError(m@),
    }
}

/// The result type of fallible library operations.
pub type GratResult<T> = Result<T, GratError>;

} // verus!
