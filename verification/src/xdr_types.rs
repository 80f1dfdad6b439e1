//! Declarations of the `stellar_xdr` types that the conversions into the
//! library's model take.

use vstd::prelude::*;

verus! {

/// A Soroban value as `stellar_xdr` decodes it.
#[verifier::external_type_specification]
#[verifier::external_body]
pub struct ExScVal(stellar_xdr::curr::ScVal);

/// A map value as `stellar_xdr` decodes it.
#[verifier::external_type_specification]
#[verifier::external_body]
pub struct ExScMap(stellar_xdr::curr::ScMap);

/// An address as `stellar_xdr` decodes it.
#[verifier::external_type_specification]
#[verifier::external_body]
pub struct ExScAddress(stellar_xdr::curr::ScAddress);

/// An error value as `stellar_xdr` decodes it.
#[verifier::external_type_specification]
#[verifier::external_body]
pub struct ExScError(stellar_xdr::curr::ScError);

/// A host error code as `stellar_xdr` decodes it.
#[verifier::external_type_specification]
#[verifier::external_body]
pub struct ExScErrorCode(stellar_xdr::curr::ScErrorCode);

/// An authorization entry as `stellar_xdr` decodes it.
#[verifier::external_type_specification]
#[verifier::external_body]
pub struct ExSorobanAuthorizationEntry(stellar_xdr::curr::SorobanAuthorizationEntry);

/// An entry of a contract specification as `stellar_xdr` decodes it.
#[verifier::external_type_specification]
#[verifier::external_body]
pub struct ExScSpecEntry(stellar_xdr::curr::ScSpecEntry);

/// A function of a contract specification as `stellar_xdr` decodes it.
#[verifier::external_type_specification]
#[verifier::external_body]
pub struct ExScSpecFunctionV0(stellar_xdr::curr::ScSpecFunctionV0);

/// The Soroban metadata of a transaction as `stellar_xdr` decodes it.
#[verifier::external_type_specification]
#[verifier::external_body]
pub struct ExSorobanTransactionMeta(stellar_xdr::curr::SorobanTransactionMeta);

} // verus!
