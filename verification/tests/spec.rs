use prism_core::decode::contract_error::{contract_error_info, resolve_with_resolution, LEARN_MORE_URL};
use prism_core::decode::contract_error_resolver::{
    code_key_for, instance_key_for, resolution_or_fallback, resolve_from_wasm, spec_cache_key, wasm_from_code_answer,
    wasm_hash_from_answer, ContractErrorResolver,
};
use prism_core::error::GratError;
use prism_core::json::{Json, JsonMember};
use prism_core::spec::decoder::{decode_contract_spec, resolve_error_code, ContractErrorEntry, ContractSpec, SpecParser};
use prism_core::spec::resolver::{contract_code_key, poll_decision, wasm_from_answer, PollAction, ResolverStats};
use prism_core::types::network::NetworkConfig;
use stellar_xdr::curr as sx;
use stellar_xdr::curr::WriteXdr;

#[test]
fn test_resolve_error_code_not_found() {
    let spec = ContractSpec {
        errors: vec![ContractErrorEntry { code: 1, name: "NotFound".to_string(), doc: None }],
        functions: Vec::new(),
        name: None,
        version: None,
    };
    assert!(resolve_error_code(&spec, 99).is_none());
    assert!(resolve_error_code(&spec, 1).is_some());
}

#[test]
fn test_resolver_stats() {
    let stats = ResolverStats { memory_cache_size: 10, pending_fetches: 2 };
    assert_eq!(stats.memory_cache_size, 10);
    assert_eq!(stats.pending_fetches, 2);
}

fn wasm_with_section(name: &str, data: &[u8]) -> Vec<u8> {
    let mut wasm = vec![0x00, 0x61, 0x73, 0x6D, 0x01, 0x00, 0x00, 0x00];
    let mut custom_payload = Vec::new();
    custom_payload.push(name.len() as u8);
    custom_payload.extend_from_slice(name.as_bytes());
    custom_payload.extend_from_slice(data);
    wasm.push(0);
    let mut len = custom_payload.len();
    loop {
        let byte = (len & 0x7f) as u8;
        len >>= 7;
        if len == 0 {
            wasm.push(byte);
            break;
        }
        wasm.push(byte | 0x80);
    }
    wasm.extend(custom_payload);
    wasm
}

#[test]
fn test_extract_spec_success() {
    let section_data = vec![1, 2, 3, 4];
    let wasm = wasm_with_section("contractspecv0", &section_data);
    let result = SpecParser::extract_spec(&wasm).expect("Should find section");
    assert_eq!(result, section_data);
}

#[test]
fn test_extract_spec_not_found() {
    let wasm = vec![0x00, 0x61, 0x73, 0x6D, 0x01, 0x00, 0x00, 0x00];
    let result = SpecParser::extract_spec(&wasm);
    assert!(result.is_err());
    match result {
        Err(GratError::SpecError(msg)) => assert!(msg.contains("not found")),
        _ => panic!("Expected SpecError"),
    }
}

#[test]
fn malformed_wasm_is_a_parse_error() {
    match SpecParser::extract_spec(&[1, 2, 3]) {
        Err(GratError::SpecError(msg)) => assert!(msg.starts_with("WASM parse error: ")),
        _ => panic!("Expected SpecError"),
    }
}

#[test]
fn first_matching_error_entry_is_resolved() {
    let spec = ContractSpec {
        errors: vec![
            ContractErrorEntry { code: 2, name: "A".to_string(), doc: None },
            ContractErrorEntry { code: 3, name: "B".to_string(), doc: Some("doc".to_string()) },
            ContractErrorEntry { code: 3, name: "C".to_string(), doc: None },
        ],
        functions: Vec::new(),
        name: None,
        version: None,
    };
    assert_eq!(resolve_error_code(&spec, 3).unwrap().name, "B");
}

#[test]
fn undecodable_spec_section_has_no_entries() {
    let wasm = wasm_with_section("contractspecv0", &[9]);
    let spec = decode_contract_spec(&wasm).unwrap();
    assert!(spec.errors.is_empty() && spec.functions.is_empty() && spec.name.is_none());
}

fn error_enum_entry() -> sx::ScSpecEntry {
    sx::ScSpecEntry::UdtErrorEnumV0(sx::ScSpecUdtErrorEnumV0 {
        doc: "Error documentation".try_into().unwrap(),
        lib: "".try_into().unwrap(),
        name: "MyError".try_into().unwrap(),
        cases: vec![sx::ScSpecUdtErrorEnumCaseV0 {
            doc: "Some doc".try_into().unwrap(),
            name: "Failed".try_into().unwrap(),
            value: 1042,
        }]
        .try_into()
        .unwrap(),
    })
}

fn entry_bytes(entries: &[sx::ScSpecEntry]) -> Vec<u8> {
    let mut bytes = Vec::new();
    for e in entries {
        bytes.extend(e.to_xdr(sx::Limits::none()).unwrap());
    }
    bytes
}

#[test]
fn test_resolve_from_cache_success() {
    let wasm = wasm_with_section("contractspecv0", &entry_bytes(&[error_enum_entry()]));
    let contract_id = "CA3D5KTHBN6TOVTTTA74S4O4O4O4O4O4O4O4O4O4O4O4O4O4O4O4O4O4";
    let (name, doc) = resolution_or_fallback(resolve_from_wasm(&wasm, contract_id, 1042), 1042);
    assert_eq!(name, "MyError::Failed");
    assert_eq!(doc, Some("Some doc".to_string()));
    let (name_fb, doc_fb) = resolution_or_fallback(resolve_from_wasm(&wasm, contract_id, 9999), 9999);
    assert_eq!(name_fb, "9999");
    assert_eq!(doc_fb, None);
}

#[test]
fn spec_entries_are_decoded_in_order() {
    let second_enum = sx::ScSpecEntry::UdtErrorEnumV0(sx::ScSpecUdtErrorEnumV0 {
        doc: "".try_into().unwrap(),
        lib: "".try_into().unwrap(),
        name: "Other".try_into().unwrap(),
        cases: vec![
            sx::ScSpecUdtErrorEnumCaseV0 { doc: "".try_into().unwrap(), name: "A".try_into().unwrap(), value: 1 },
            sx::ScSpecUdtErrorEnumCaseV0 { doc: "b".try_into().unwrap(), name: "B".try_into().unwrap(), value: 2 },
        ]
        .try_into()
        .unwrap(),
    });
    let function = sx::ScSpecEntry::FunctionV0(sx::ScSpecFunctionV0 {
        doc: "Transfers".try_into().unwrap(),
        name: sx::ScSymbol("transfer".try_into().unwrap()),
        inputs: vec![sx::ScSpecFunctionInputV0 {
            doc: "".try_into().unwrap(),
            name: "amount".try_into().unwrap(),
            type_: sx::ScSpecTypeDef::I128,
        }]
        .try_into()
        .unwrap(),
        outputs: vec![sx::ScSpecTypeDef::Bool].try_into().unwrap(),
    });
    let no_output = sx::ScSpecEntry::FunctionV0(sx::ScSpecFunctionV0 {
        doc: "".try_into().unwrap(),
        name: sx::ScSymbol("init".try_into().unwrap()),
        inputs: vec![].try_into().unwrap(),
        outputs: vec![].try_into().unwrap(),
    });
    let mut data = entry_bytes(&[error_enum_entry(), function, second_enum, no_output]);
    data.extend([0, 0, 0, 9]);
    let spec = decode_contract_spec(&wasm_with_section("contractspecv0", &data)).unwrap();
    let errors: Vec<(u32, String, Option<String>)> =
        spec.errors.iter().map(|e| (e.code, e.name.clone(), e.doc.clone())).collect();
    assert_eq!(
        errors,
        vec![
            (1042, "MyError::Failed".to_string(), Some("Some doc".to_string())),
            (1, "Other::A".to_string(), None),
            (2, "Other::B".to_string(), Some("b".to_string())),
        ]
    );
    assert_eq!(spec.functions.len(), 2);
    assert_eq!(spec.functions[0].name, "transfer");
    assert_eq!(spec.functions[0].params, vec![("amount".to_string(), "I128".to_string())]);
    assert_eq!(spec.functions[0].return_type, "Bool");
    assert_eq!(spec.functions[0].doc, Some("Transfers".to_string()));
    assert_eq!(spec.functions[1].name, "init");
    assert_eq!(spec.functions[1].return_type, "Void");
    assert_eq!(spec.functions[1].doc, None);
    assert!(spec.name.is_none() && spec.version.is_none());
}

#[test]
fn resolution_falls_back_to_the_code() {
    let wasm = wasm_with_section("contractspecv0", &[9]);
    let r = resolve_from_wasm(&wasm, "CID", 9999);
    match &r {
        Err(GratError::SpecError(m)) => assert_eq!(m, "Error code 9999 not found in contract CID spec"),
        _ => panic!("expected a spec error"),
    }
    assert_eq!(resolution_or_fallback(r, 9999), ("9999".to_string(), None));
    assert_eq!(
        resolution_or_fallback(Ok(("MyError::Failed".to_string(), Some("d".to_string()))), 1),
        ("MyError::Failed".to_string(), Some("d".to_string()))
    );
}

fn valid_contract_id() -> String {
    format!("{}", stellar_strkey::Contract([7u8; 32]))
}

#[test]
fn contract_error_info_drops_a_numeric_name() {
    let id = valid_contract_id();
    let info = contract_error_info(&id, 42, ("42".to_string(), None));
    assert_eq!(info.error_name, None);
    assert_eq!(info.learn_more, LEARN_MORE_URL);
    let named = contract_error_info(&id, 42, ("Overflow".to_string(), Some("doc".to_string())));
    assert_eq!(named.error_name, Some("Overflow".to_string()));
    assert_eq!(named.doc_comment, Some("doc".to_string()));
    assert!(matches!(resolve_with_resolution("bad", 1, ("1".to_string(), None)), Err(GratError::InvalidContractId(_))));
    assert_eq!(resolve_with_resolution(&id, 1, ("1".to_string(), None)).unwrap().contract_id, id);
}

#[test]
fn keys_are_built_from_the_contract_id() {
    assert_eq!(spec_cache_key("CABC"), "CABC_spec");
    assert_eq!(contract_code_key("CABC"), "contract_code/CABC");
    let key = instance_key_for(&valid_contract_id()).unwrap();
    let expected = sx::LedgerKey::ContractData(sx::LedgerKeyContractData {
        contract: sx::ScAddress::Contract(sx::Hash([7u8; 32])),
        key: sx::ScVal::LedgerKeyContractInstance,
        durability: sx::ContractDataDurability::Persistent,
    })
    .to_xdr_base64(sx::Limits::none())
    .unwrap();
    assert_eq!(key, expected);
    assert!(matches!(instance_key_for("nope"), Err(GratError::InvalidContractId(_))));
    let code_key = code_key_for(&[4u8; 32]).unwrap();
    let expected_code = sx::LedgerKey::ContractCode(sx::LedgerKeyContractCode { hash: sx::Hash([4u8; 32]) })
        .to_xdr_base64(sx::Limits::none())
        .unwrap();
    assert_eq!(code_key, expected_code);
}

fn answer_with_xdr(xdr: &str) -> Json {
    Json::Object(vec![JsonMember {
        key: "entries".to_string(),
        value: Json::Array(vec![Json::Object(vec![JsonMember {
            key: "xdr".to_string(),
            value: Json::String(xdr.to_string()),
        }])]),
    }])
}

fn code_entry_xdr(code: Vec<u8>) -> String {
    sx::LedgerEntry {
        last_modified_ledger_seq: 1,
        data: sx::LedgerEntryData::ContractCode(sx::ContractCodeEntry {
            ext: sx::ContractCodeEntryExt::V0,
            hash: sx::Hash([3u8; 32]),
            code: code.try_into().unwrap(),
        }),
        ext: sx::LedgerEntryExt::V0,
    }
    .to_xdr_base64(sx::Limits::none())
    .unwrap()
}

#[test]
fn wasm_is_read_from_a_code_answer() {
    let answer = answer_with_xdr(&code_entry_xdr(vec![0, 97, 115, 109]));
    assert_eq!(wasm_from_code_answer(&answer, "CID").unwrap(), vec![0, 97, 115, 109]);
    assert_eq!(wasm_from_answer(&answer, "CID").unwrap(), vec![0, 97, 115, 109]);
    match wasm_hash_from_answer(&answer, "CID") {
        Err(GratError::SpecError(m)) => assert_eq!(m, "Ledger entry is not ContractData"),
        _ => panic!("expected a spec error"),
    }
}

#[test]
fn empty_or_malformed_answers_are_errors() {
    let empty = Json::Object(vec![JsonMember { key: "entries".to_string(), value: Json::Array(vec![]) }]);
    assert_eq!(wasm_from_code_answer(&empty, "CID"), Err(GratError::ContractNotFound("CID".to_string())));
    assert_eq!(
        wasm_hash_from_answer(&Json::Null, "CID"),
        Err(GratError::ContractNotFound("Invalid response for contract CID".to_string()))
    );
    let no_xdr = Json::Object(vec![JsonMember { key: "entries".to_string(), value: Json::Array(vec![Json::Null]) }]);
    assert_eq!(
        wasm_from_code_answer(&no_xdr, "CID"),
        Err(GratError::SpecError("Missing XDR in response for contract code CID".to_string()))
    );
}

#[test]
fn wasm_hash_is_read_from_an_instance_answer() {
    let entry = sx::LedgerEntry {
        last_modified_ledger_seq: 1,
        data: sx::LedgerEntryData::ContractData(sx::ContractDataEntry {
            ext: sx::ExtensionPoint::V0,
            contract: sx::ScAddress::Contract(sx::Hash([7u8; 32])),
            key: sx::ScVal::LedgerKeyContractInstance,
            durability: sx::ContractDataDurability::Persistent,
            val: sx::ScVal::ContractInstance(sx::ScContractInstance {
                executable: sx::ContractExecutable::Wasm(sx::Hash([5u8; 32])),
                storage: None,
            }),
        }),
        ext: sx::LedgerEntryExt::V0,
    }
    .to_xdr_base64(sx::Limits::none())
    .unwrap();
    assert_eq!(wasm_hash_from_answer(&answer_with_xdr(&entry), "CID").unwrap(), [5u8; 32]);
}

#[test]
fn waiting_request_polls_then_fetches() {
    assert!(matches!(poll_decision(0, Some(5)), PollAction::Take(5)));
    assert!(matches!(poll_decision::<u8>(0, None), PollAction::WaitAndCheck));
    assert!(matches!(poll_decision::<u8>(49, None), PollAction::WaitAndFetch));
}

#[test]
fn resolver_keeps_its_network() {
    let r = ContractErrorResolver::new(NetworkConfig::testnet());
    assert_eq!(r.network.rpc_url, "https://soroban-testnet.stellar.org");
}
