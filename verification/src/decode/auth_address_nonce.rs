//! The address and nonce of the credentials of an authorization entry.

use vstd::prelude::*;
use crate::decode::auth::{address_strkey, scaddress_to_strkey};
use crate::text::{i64_to_decimal, signed_decimal};
use crate::error::{GratError, GratResult};
use crate::xdr::{auth_entry_model, XDR_READ_DEPTH, SorobanAddressCredentials, AuthorizationEntry, SorobanCredentials};
use stellar_xdr::curr as sx;
use stellar_xdr::curr::ReadXdr;

verus! {

/// What `stellar_xdr` makes of base64 text read as a
/// `SorobanAuthorizationEntry` with nesting limited to `depth`: the entry in
/// the library's model, or the text of the decoding error.
pub uninterp spec fn auth_entry_from_base64(b64: Seq<char>, depth: u32) -> Result<AuthorizationEntry, Seq<char>>;

/// Reads an authorization entry from base64 XDR with `stellar_xdr`'s
/// `ReadXdr::from_xdr_base64` (nesting limited to `depth`, no length limit;
/// all input must be consumed) and takes it into the model. Input nested
/// deeper is a decoding error. The claim: the outcome is
/// `auth_entry_from_base64(b64, depth)`, a function of the text and the limit.
#[verifier::external_body]
fn read_auth_entry_base64(b64: &str, depth: u32) -> (r: Result<AuthorizationEntry, String>)
    ensures
        match r {
            Ok(e) => auth_entry_from_base64(b64@, depth) == Ok::<AuthorizationEntry, Seq<char>>(e),
            Err(m) => auth_entry_from_base64(b64@, depth) == Err::<AuthorizationEntry, Seq<char>>(m@),
        },
{
    let e = sx::SorobanAuthorizationEntry::from_xdr_base64(b64, sx::Limits::depth(depth)).map_err(|e| e.to_string())?;
    Ok(auth_entry_model(&e))
}

/// The address and nonce that an entry's credentials give, as
/// `AddressWithNonce::from_entry` returns them.
pub open spec fn entry_address_nonce(entry: AuthorizationEntry, r: Option<AddressWithNonce>) -> bool {
    match entry.credentials {
        SorobanCredentials::SourceAccount => r is None,
        SorobanCredentials::Address(c) => r matches Some(a) && a.address@ == address_strkey(c.address)
            && a.nonce == c.nonce,
    }
}

/// An address that authorized an invocation, with the nonce of its
/// credentials.
#[derive(Debug, Clone, PartialEq, Eq)]
pub struct AddressWithNonce {
    pub address: String,
    pub nonce: i64,
}

impl AddressWithNonce {
    /// The address and nonce of an authorization entry given as base64 XDR;
    /// text that does not read as an entry is an XDR error carrying the
    /// decoder's message.
    pub fn from_auth_entry_base64(b64: &str) -> (r: GratResult<Option<Self>>)
        ensures
            match auth_entry_from_base64(b64@, XDR_READ_DEPTH) {
                Ok(entry) => r matches Ok(o) && entry_address_nonce(entry, o),
                Err(m) => r matches Err(GratError::XdrError(msg)) && msg@ == m,
            },
    {
        match read_auth_entry_base64(b64, XDR_READ_DEPTH) {
            Ok(entry) => Ok(Self::from_entry(&entry)),
            Err(m) => Err(GratError::XdrError(m)),
        }
    }

    /// The address and nonce of an entry's credentials; none when the
    /// source account authorizes.
    pub fn from_entry(entry: &AuthorizationEntry) -> (r: Option<Self>)
        ensures
            entry_address_nonce(*entry, r),
    {
        match &entry.credentials {
            SorobanCredentials::SourceAccount => None,
            SorobanCredentials::Address(creds) => Some(Self::from_credentials(creds)),
        }
    }

    /// The address, as a StrKey, and nonce of address credentials.
    pub fn from_credentials(creds: &SorobanAddressCredentials) -> (r: Self)
        ensures
            r.address@ == address_strkey(creds.address),
            r.nonce == creds.nonce,
    {
        AddressWithNonce { address: scaddress_to_strkey(&creds.address), nonce: creds.nonce }
    }

    /// Two lines: `Address: <address>` and `Nonce:   <nonce>`.
    pub fn to_string(&self) -> (s: String)
        ensures
            s@ == "Address: "@ + self.address@ + "\nNonce:   "@ + signed_decimal(self.nonce as int),
    {
        let mut s = String::from_str("Address: ");
        s.append(self.address.as_str());
        s.append("\nNonce:   ");
        let n = i64_to_decimal(self.nonce);
        s.append(n.as_str());
        s
    }
}

} // verus!
