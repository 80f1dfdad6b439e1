use base64::Engine;
use prism_core::decode::auth::scaddress_to_strkey;
use prism_core::decode::auth_address_nonce::AddressWithNonce;
use prism_core::decode::auth_signature::{
    decode_auth_entry_signatures, decode_signature_bytes, extract_signatures_from_scval, signatures_of_entry, AuthEntryDecode,
};
use stellar_xdr::curr as sx;
use stellar_xdr::curr::WriteXdr;
use prism_core::xdr::{Address, ScMapEntry, ScValue, SorobanAddressCredentials, AuthorizationEntry, SorobanCredentials};

fn account_address(seed: u8) -> Address {
    Address::Account([seed; 32])
}

fn contract_address(seed: u8) -> Address {
    Address::Contract([seed; 32])
}

fn address_entry(addr: Address, nonce: i64) -> AuthorizationEntry {
    AuthorizationEntry {
        credentials: SorobanCredentials::Address(SorobanAddressCredentials {
            address: addr,
            nonce,
            signature_expiration_ledger: 0,
            signature: ScValue::Void,
        }),
    }
}

#[test]
fn extracts_account_address_and_nonce() {
    let entry = address_entry(account_address(3), 42);
    let parsed = AddressWithNonce::from_entry(&entry).expect("address credential");
    assert!(parsed.address.starts_with('G'));
    assert_eq!(parsed.nonce, 42);
}

#[test]
fn extracts_contract_address_and_nonce() {
    let entry = address_entry(contract_address(9), -7);
    let parsed = AddressWithNonce::from_entry(&entry).expect("address credential");
    assert!(parsed.address.starts_with('C'));
    assert_eq!(parsed.nonce, -7);
}

#[test]
fn source_account_has_no_address_with_nonce() {
    let entry = AuthorizationEntry { credentials: SorobanCredentials::SourceAccount };
    assert!(AddressWithNonce::from_entry(&entry).is_none());
}

#[test]
fn display_separates_address_and_nonce() {
    let entry = address_entry(account_address(5), 1234);
    let parsed = AddressWithNonce::from_entry(&entry).expect("address credential");
    let rendered = parsed.to_string();
    assert!(rendered.contains(&format!("Address: {}", parsed.address)));
    assert!(rendered.contains("Nonce:   1234"));
    assert_eq!(rendered.lines().count(), 2);
}

#[test]
fn account_strkey_matches_stellar_strkey() {
    let addr = scaddress_to_strkey(&account_address(5));
    assert_eq!(addr, format!("{}", stellar_strkey::ed25519::PublicKey([5; 32])));
    assert_eq!(addr.len(), 56);
}

#[test]
fn decode_valid_64_bytes() {
    let bytes = vec![0xabu8; 64];
    let hex = decode_signature_bytes(&bytes);
    assert_eq!(hex.len(), 128);
    assert!(hex.chars().all(|c| c.is_ascii_hexdigit()));
    assert!(hex.starts_with("ab"));
}

#[test]
fn decode_empty_bytes_returns_error_label() {
    let result = decode_signature_bytes(&[]);
    assert_eq!(result, "<invalid: empty signature>");
}

#[test]
fn decode_wrong_length_returns_error_label() {
    let result = decode_signature_bytes(&[0u8; 32]);
    assert!(result.starts_with("<invalid: expected 64 bytes"));
    assert_eq!(result, "<invalid: expected 64 bytes, got 32>");
}

#[test]
fn decode_undecodable_entries_return_error_labels() {
    assert_eq!(signatures_of_entry(&AuthEntryDecode::Base64Failed), vec!["<invalid: base64 decode failed>"]);
    assert_eq!(signatures_of_entry(&AuthEntryDecode::XdrFailed), vec!["<invalid: xdr decode failed>"]);
    let source = AuthorizationEntry { credentials: SorobanCredentials::SourceAccount };
    assert!(signatures_of_entry(&AuthEntryDecode::Entry(source)).is_empty());
}

#[test]
fn signatures_are_found_under_signature_keys() {
    let sig = ScValue::Vec(Some(vec![
        ScValue::MapVal(Some(vec![
            ScMapEntry { key: ScValue::Symbol(b"public_key".to_vec()), val: ScValue::Bytes(vec![1; 32]) },
            ScMapEntry { key: ScValue::Symbol(b"signature".to_vec()), val: ScValue::Bytes(vec![0xcd; 64]) },
        ])),
        ScValue::Bytes(vec![]),
        ScValue::U32(3),
    ]));
    let found = extract_signatures_from_scval(&sig);
    assert_eq!(found, vec!["cd".repeat(64), "<invalid: empty signature>".to_string()]);
}

fn xdr_account_address(seed: u8) -> sx::ScAddress {
    sx::ScAddress::Account(sx::AccountId(sx::PublicKey::PublicKeyTypeEd25519(sx::Uint256([seed; 32]))))
}

fn xdr_contract_address(seed: u8) -> sx::ScAddress {
    sx::ScAddress::Contract(sx::Hash([seed; 32]))
}

fn xdr_root_invocation(addr: sx::ScAddress) -> sx::SorobanAuthorizedInvocation {
    sx::SorobanAuthorizedInvocation {
        function: sx::SorobanAuthorizedFunction::ContractFn(sx::InvokeContractArgs {
            contract_address: addr,
            function_name: sx::ScSymbol("f".try_into().unwrap()),
            args: Vec::new().try_into().unwrap(),
        }),
        sub_invocations: Vec::new().try_into().unwrap(),
    }
}

fn xdr_address_entry(addr: sx::ScAddress, nonce: i64, signature: sx::ScVal) -> sx::SorobanAuthorizationEntry {
    sx::SorobanAuthorizationEntry {
        credentials: sx::SorobanCredentials::Address(sx::SorobanAddressCredentials {
            address: addr.clone(),
            nonce,
            signature_expiration_ledger: 0,
            signature,
        }),
        root_invocation: xdr_root_invocation(addr),
    }
}

fn xdr_source_account_entry(seed: u8) -> sx::SorobanAuthorizationEntry {
    sx::SorobanAuthorizationEntry {
        credentials: sx::SorobanCredentials::SourceAccount,
        root_invocation: xdr_root_invocation(xdr_contract_address(seed)),
    }
}

#[test]
fn round_trips_through_base64() {
    let entry = xdr_address_entry(xdr_account_address(7), 99, sx::ScVal::Void);
    let b64 = entry.to_xdr_base64(sx::Limits::none()).expect("encode");
    let parsed = AddressWithNonce::from_auth_entry_base64(&b64)
        .expect("decode")
        .expect("address credential");
    assert!(parsed.address.starts_with('G'));
    assert_eq!(parsed.nonce, 99);
}

#[test]
fn source_account_base64_yields_none() {
    let entry = xdr_source_account_entry(2);
    let b64 = entry.to_xdr_base64(sx::Limits::none()).expect("encode");
    let parsed = AddressWithNonce::from_auth_entry_base64(&b64).expect("decode");
    assert!(parsed.is_none());
}

#[test]
fn invalid_base64_is_an_error() {
    assert!(AddressWithNonce::from_auth_entry_base64("!!!not-valid!!!").is_err());
}

#[test]
fn contract_address_round_trips_through_base64() {
    let entry = xdr_address_entry(xdr_contract_address(4), -3, sx::ScVal::Void);
    let b64 = entry.to_xdr_base64(sx::Limits::none()).expect("encode");
    let parsed = AddressWithNonce::from_auth_entry_base64(&b64)
        .expect("decode")
        .expect("address credential");
    assert_eq!(parsed.address, scaddress_to_strkey(&Address::Contract([4; 32])));
    assert_eq!(parsed.nonce, -3);
}

#[test]
fn decode_invalid_base64_returns_error_label() {
    let result = decode_auth_entry_signatures("!!!not-base64!!!");
    assert_eq!(result, vec!["<invalid: base64 decode failed>"]);
}

#[test]
fn decode_invalid_xdr_returns_error_label() {
    let result = decode_auth_entry_signatures("AAAA");
    assert_eq!(result, vec!["<invalid: xdr decode failed>"]);
}

#[test]
fn signatures_are_read_from_base64_entries() {
    let sym = |s: &str| sx::ScVal::Symbol(sx::ScSymbol(s.try_into().unwrap()));
    let bytes = |b: Vec<u8>| sx::ScVal::Bytes(sx::ScBytes(b.try_into().unwrap()));
    let sig_map = sx::ScVal::Map(Some(sx::ScMap(
        vec![
            sx::ScMapEntry { key: sym("public_key"), val: bytes(vec![1u8; 32]) },
            sx::ScMapEntry { key: sym("signature"), val: bytes(vec![0xabu8; 64]) },
        ]
        .try_into()
        .unwrap(),
    )));
    let signature = sx::ScVal::Vec(Some(sx::ScVec(vec![sig_map, bytes(vec![0u8; 3])].try_into().unwrap())));
    let entry = xdr_address_entry(xdr_account_address(1), 5, signature);
    let b64 = entry.to_xdr_base64(sx::Limits::none()).expect("encode");
    let result = decode_auth_entry_signatures(&b64);
    assert_eq!(result, vec!["ab".repeat(64), "<invalid: expected 64 bytes, got 3>".to_string()]);
}

#[test]
fn source_account_entries_have_no_signatures() {
    let b64 = xdr_source_account_entry(3).to_xdr_base64(sx::Limits::none()).expect("encode");
    assert!(decode_auth_entry_signatures(&b64).is_empty());
}

fn deeply_nested_entry_xdr(levels: usize) -> Vec<u8> {
    let mut bytes = Vec::new();
    bytes.extend([0, 0, 0, 1]); // address credentials
    bytes.extend([0, 0, 0, 0, 0, 0, 0, 0]); // account address, ed25519 key
    bytes.extend([7u8; 32]);
    bytes.extend([0, 0, 0, 0, 0, 0, 0, 5]); // nonce
    bytes.extend([0, 0, 0, 0]); // signature expiration ledger
    for _ in 0..levels {
        bytes.extend([0, 0, 0, 16, 0, 0, 0, 1, 0, 0, 0, 1]); // a vector holding one value
    }
    bytes.extend([0, 0, 0, 3, 0, 0, 0, 1]); // U32(1)
    bytes
}

#[test]
fn deeply_nested_entries_are_refused_without_crashing() {
    let b64 = base64::engine::general_purpose::STANDARD.encode(deeply_nested_entry_xdr(100_000));
    assert_eq!(decode_auth_entry_signatures(&b64), vec!["<invalid: xdr decode failed>"]);
    assert!(AddressWithNonce::from_auth_entry_base64(&b64).is_err());
}

#[test]
fn moderately_nested_signatures_are_read() {
    let mut signature = sx::ScVal::Bytes(sx::ScBytes(vec![0xcdu8; 64].try_into().unwrap()));
    for _ in 0..50 {
        signature = sx::ScVal::Vec(Some(sx::ScVec(vec![signature].try_into().unwrap())));
    }
    let entry = xdr_address_entry(xdr_account_address(2), 1, signature);
    let b64 = entry.to_xdr_base64(sx::Limits::none()).expect("encode");
    assert_eq!(decode_auth_entry_signatures(&b64), vec!["cd".repeat(64)]);
}
