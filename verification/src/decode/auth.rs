//! Rendering of addresses as StrKey strings.

use vstd::prelude::*;
use crate::xdr::Address;

verus! {

/// The StrKey (`G...`) of an ed25519 account public key.
pub uninterp spec fn account_strkey(key: Seq<u8>) -> Seq<char>;

/// The StrKey (`C...`) of a contract hash.
pub uninterp spec fn contract_strkey(hash: Seq<u8>) -> Seq<char>;

/// Encodes an account public key with `stellar_strkey::ed25519::PublicKey`'s
/// `Display`: base32 of version byte, key and CRC16 checksum. The contract
/// names the result; it states only the fixed length of 56 characters and
/// the leading `G`, which the crate's length constant and version byte give.
#[verifier::external_body]
fn encode_account_strkey(key: &[u8; 32]) -> (s: String)
    ensures
        s@ == account_strkey(key@),
        s@.len() == 56,
        s@[0] == 'G',
{
    format!("{}", stellar_strkey::ed25519::PublicKey(*key))
}

/// Encodes a contract hash with `stellar_strkey::Contract`'s `Display`:
/// base32 of version byte, hash and CRC16 checksum. The contract names the
/// result; it states only the fixed length of 56 characters and the leading
/// `C`, which the crate's length constant and version byte give.
#[verifier::external_body]
fn encode_contract_strkey(hash: &[u8; 32]) -> (s: String)
    ensures
        s@ == contract_strkey(hash@),
        s@.len() == 56,
        s@[0] == 'C',
{
    format!("{}", stellar_strkey::Contract(*hash))
}

/// The StrKey of an address.
pub open spec fn address_strkey(addr: Address) -> Seq<char> {
    match addr {
        Address::Account(key) => account_strkey(key@),
        Address::Contract(hash) => contract_strkey(hash@),
    }
}

/// Renders an address as its StrKey: `G...` for an account, `C...` for a contract.
pub fn scaddress_to_strkey(addr: &Address) -> (s: String)
    ensures
        s@ == address_strkey(*addr),
        s@.len() == 56,
        s@[0] == (if addr is Account { 'G' } else { 'C' }),
{
    match addr {
        Address::Account(key) => encode_account_strkey(key),
        Address::Contract(hash) => encode_contract_strkey(hash),
    }
}

} // verus!
