//! Validated Soroban contract identifiers (`C...` StrKeys).

use vstd::prelude::*;
use vstd::utf8::encode_utf8;
use crate::error::GratError;
use crate::text::{decimal_digits, u64_to_decimal};
use stellar_strkey::DecodeError as StrkeyDecodeError;

verus! {

/// The length of a contract StrKey, in bytes.
pub const CONTRACT_ID_LEN: usize = 56;

/// Why a string is not a valid StrKey, as `stellar_strkey` reports it.
#[derive(Debug, Clone, Copy, PartialEq, Eq)]
pub enum StrkeyError {
    InvalidBase32,
    TooShort,
    TooLong,
    ChecksumMismatch,
    UnsupportedVersion,
    UnsupportedClaimableBalanceVersion,
    InvalidPayloadLength,
    InvalidPadding,
    PrivateKey,
}

/// The text `stellar_strkey::DecodeError` displays for each reason.
pub open spec fn strkey_error_text(e: StrkeyError) -> Seq<char> {
    match e {
        StrkeyError::InvalidBase32 => "the strkey is not valid base32"@,
        StrkeyError::TooShort => "the strkey decodes to fewer bytes than required"@,
        StrkeyError::TooLong => "the strkey decodes to more bytes than allowed"@,
        StrkeyError::ChecksumMismatch => "the strkey checksum does not match"@,
        StrkeyError::UnsupportedVersion => "the strkey version byte is not a supported kind"@,
        StrkeyError::UnsupportedClaimableBalanceVersion =>
            "the strkey claimable-balance sub-version byte is not a supported version"@,
        StrkeyError::InvalidPayloadLength => "the strkey payload is not the expected length"@,
        StrkeyError::InvalidPadding => "the strkey payload has non-zero padding bytes"@,
        StrkeyError::PrivateKey => "the strkey is `S`-prefixed; use ed25519::PrivateKey to decode it"@,
    }
}

/// Renders a StrKey decoding error with `stellar_strkey::DecodeError`'s
/// `Display`, taking the reason back to the crate's error variant for
/// variant. The claim: the text is the one `strkey_error_text` gives for
/// the reason, as `DecodeError`'s `Display` writes it.
#[verifier::external_body]
pub(crate) fn strkey_error_message(e: StrkeyError) -> (s: String)
    ensures
        s@ == strkey_error_text(e),
{
    match e {
        StrkeyError::InvalidBase32 => StrkeyDecodeError::InvalidBase32,
        StrkeyError::TooShort => StrkeyDecodeError::TooShort,
        StrkeyError::TooLong => StrkeyDecodeError::TooLong,
        StrkeyError::ChecksumMismatch => StrkeyDecodeError::ChecksumMismatch,
        StrkeyError::UnsupportedVersion => StrkeyDecodeError::UnsupportedVersion,
        StrkeyError::UnsupportedClaimableBalanceVersion => StrkeyDecodeError::UnsupportedClaimableBalanceVersion,
        StrkeyError::InvalidPayloadLength => StrkeyDecodeError::InvalidPayloadLength,
        StrkeyError::InvalidPadding => StrkeyDecodeError::InvalidPadding,
        StrkeyError::PrivateKey => StrkeyDecodeError::PrivateKey,
    }.to_string()
}

/// What `stellar_strkey::Contract::from_string` makes of a string: the
/// contract hash, or why it is not a contract StrKey.
pub uninterp spec fn contract_strkey_decode(raw: Seq<char>) -> Result<Seq<u8>, StrkeyError>;

/// Decodes a contract StrKey with `stellar_strkey::Contract::from_string`.
/// The claim: the outcome is `contract_strkey_decode(raw)`, a function of the
/// string alone.
#[verifier::external_body]
pub(crate) fn decode_contract_strkey(raw: &str) -> (r: Result<[u8; 32], StrkeyError>)
    ensures
        match r {
            Ok(h) => contract_strkey_decode(raw@) == Ok::<Seq<u8>, StrkeyError>(h@),
            Err(e) => contract_strkey_decode(raw@) == Err::<Seq<u8>, StrkeyError>(e),
        },
{
    match stellar_strkey::Contract::from_string(raw) {
        Ok(c) => Ok(c.0),
        Err(StrkeyDecodeError::InvalidBase32) => Err(StrkeyError::InvalidBase32),
        Err(StrkeyDecodeError::TooShort) => Err(StrkeyError::TooShort),
        Err(StrkeyDecodeError::TooLong) => Err(StrkeyError::TooLong),
        Err(StrkeyDecodeError::ChecksumMismatch) => Err(StrkeyError::ChecksumMismatch),
        Err(StrkeyDecodeError::UnsupportedVersion) => Err(StrkeyError::UnsupportedVersion),
        Err(StrkeyDecodeError::UnsupportedClaimableBalanceVersion) => Err(StrkeyError::UnsupportedClaimableBalanceVersion),
        Err(StrkeyDecodeError::InvalidPayloadLength) => Err(StrkeyError::InvalidPayloadLength),
        Err(StrkeyDecodeError::InvalidPadding) => Err(StrkeyError::InvalidPadding),
        Err(StrkeyDecodeError::PrivateKey) => Err(StrkeyError::PrivateKey),
    }
}

/// Why `raw` is not a valid contract identifier, or `None` when it is: it
/// must be 56 bytes long, start with `C`, and decode as a contract StrKey.
pub open spec fn contract_id_error(raw: Seq<char>) -> Option<Seq<char>> {
    let bytes = encode_utf8(raw);
    if bytes.len() != CONTRACT_ID_LEN {
        Some("expected 56 characters, got "@ + decimal_digits(bytes.len()) + " (received '"@ + raw
            + "')"@)
    } else if bytes[0] == 67u8 {
        match contract_strkey_decode(raw) {
            Ok(_) => None,
            Err(e) => Some("'"@ + raw + "' is not valid StrKey-encoded data: "@ + strkey_error_text(e)),
        }
    } else if bytes[0] == 71u8 {
        Some(
            "Must start with 'C', but received 'G' — this looks like an Account ID, not a Contract ID: '"@
                + raw + "'"@,
        )
    } else {
        Some("Must start with 'C', but received '"@ + seq![bytes[0] as char] + "': '"@ + raw + "'"@)
    }
}

/// Checks that `raw` is a contract identifier: 56 bytes, a leading `C`, and
/// a valid contract StrKey.
pub fn validate_contract_id(raw: &str) -> (r: Result<(), GratError>)
    ensures
        match contract_id_error(raw@) {
            None => r is Ok,
            Some(m) => r matches Err(GratError::InvalidContractId(msg)) && msg@ == m,
        },
{
    let bytes = raw.as_bytes();
    let len = bytes.len();
    if len != CONTRACT_ID_LEN {
        let mut msg = String::from_str("expected 56 characters, got ");
        let n = u64_to_decimal(len as u64);
        msg.append(n.as_str());
        msg.append(" (received '");
        msg.append(raw);
        msg.append("')");
        assert(len == encode_utf8(raw@).len());
        assert(msg@ =~= "expected 56 characters, got "@ + decimal_digits(encode_utf8(raw@).len()) + " (received '"@ + raw@ + "')"@);
        return Err(GratError::InvalidContractId(msg));
    }
    let first = bytes[0];
    if first == 71u8 {
        let mut msg = String::from_str(
            "Must start with 'C', but received 'G' — this looks like an Account ID, not a Contract ID: '",
        );
        msg.append(raw);
        msg.append("'");
        return Err(GratError::InvalidContractId(msg));
    } else if first != 67u8 {
        let mut msg = String::from_str("Must start with 'C', but received '");
        let c = first as char;
        let mut one = String::new();
        crate::text::push_char(&mut one, c);
        msg.append(one.as_str());
        msg.append("': '");
        msg.append(raw);
        msg.append("'");
        assert(msg@ =~= "Must start with 'C', but received '"@ + seq![bytes@[0] as char] + "': '"@ + raw@ + "'"@);
        return Err(GratError::InvalidContractId(msg));
    }
    match decode_contract_strkey(raw) {
        Ok(_) => Ok(()),
        Err(e) => {
            let mut msg = String::from_str("'");
            msg.append(raw);
            msg.append("' is not valid StrKey-encoded data: ");
            let text = strkey_error_message(e);
            msg.append(text.as_str());
            Err(GratError::InvalidContractId(msg))
        },
    }
}

/// A validated contract identifier.
#[derive(Debug, Clone, PartialEq, Eq, Hash)]
pub struct ContractId(String);

impl View for ContractId {
    type V = Seq<char>;

    closed spec fn view(&self) -> Seq<char> {
        self.0@
    }
}

impl ContractId {
    /// Validates `raw` and wraps it.
    pub fn new(raw: &str) -> (r: Result<ContractId, GratError>)
        ensures
            match contract_id_error(raw@) {
                None => r matches Ok(c) && c@ == raw@,
                Some(m) => r matches Err(GratError::InvalidContractId(msg)) && msg@ == m,
            },
    {
        match validate_contract_id(raw) {
            Ok(()) => Ok(ContractId(String::from_str(raw))),
            Err(e) => Err(e),
        }
    }

    /// The identifier's text.
    pub fn as_str(&self) -> (s: &str)
        ensures
            s@ == self@,
    {
        self.0.as_str()
    }

    /// The identifier's text, as `Display` shows it.
    pub fn to_string(&self) -> (s: String)
        ensures
            s@ == self@,
    {
        self.0.clone()
    }
}

} // verus!
