use prism_core::error::GratError;
use prism_core::types::contract_id::{validate_contract_id, ContractId};

fn valid_contract_id() -> String {
    let bytes = [7u8; 32];
    format!("{}", stellar_strkey::Contract(bytes))
}

#[test]
fn accepts_valid_contract_id() {
    let raw = valid_contract_id();
    assert!(ContractId::new(&raw).is_ok());
}

#[test]
fn rejects_wrong_length() {
    let err = ContractId::new("CABCDEFG").unwrap_err();
    assert!(matches!(err, GratError::InvalidContractId(msg) if msg.contains("56 characters")));
}

#[test]
fn rejects_account_id_prefix() {
    let mut raw = valid_contract_id();
    raw.replace_range(0..1, "G");
    let err = ContractId::new(&raw).unwrap_err();
    assert!(matches!(err, GratError::InvalidContractId(msg) if msg.contains("Account ID")));
}

#[test]
fn rejects_bad_checksum() {
    let mut raw = valid_contract_id();
    let last = raw.len() - 1;
    let corrupted_char = if raw.as_bytes()[last] == b'A' { 'B' } else { 'A' };
    raw.replace_range(last..last + 1, &corrupted_char.to_string());
    assert!(ContractId::new(&raw).is_err());
}

#[test]
fn rejects_invalid_base32_char() {
    let mut raw = valid_contract_id();
    raw.replace_range(10..11, "0");
    assert!(ContractId::new(&raw).is_err());
}

#[test]
fn try_from_str_works() {
    let raw = valid_contract_id();
    let cid = ContractId::new(raw.as_str()).unwrap();
    assert_eq!(cid.as_str(), raw);
    assert_eq!(cid.to_string(), raw);
}

#[test]
fn wrong_length_message_is_exact() {
    match validate_contract_id("CABCDEFG") {
        Err(GratError::InvalidContractId(m)) => {
            assert_eq!(m, "expected 56 characters, got 8 (received 'CABCDEFG')")
        }
        _ => panic!("expected an invalid contract id"),
    }
}

#[test]
fn other_prefix_is_named() {
    let mut raw = valid_contract_id();
    raw.replace_range(0..1, "X");
    match validate_contract_id(&raw) {
        Err(GratError::InvalidContractId(m)) => {
            assert_eq!(m, format!("Must start with 'C', but received 'X': '{raw}'"))
        }
        _ => panic!("expected an invalid contract id"),
    }
}

#[test]
fn checksum_failure_quotes_the_strkey_error() {
    let mut raw = valid_contract_id();
    let last = raw.len() - 1;
    let corrupted_char = if raw.as_bytes()[last] == b'A' { 'B' } else { 'A' };
    raw.replace_range(last..last + 1, &corrupted_char.to_string());
    match validate_contract_id(&raw) {
        Err(GratError::InvalidContractId(m)) => {
            assert!(m.starts_with(&format!("'{raw}' is not valid StrKey-encoded data: the strkey")))
        }
        _ => panic!("expected an invalid contract id"),
    }
}
