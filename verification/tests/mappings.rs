use prism_core::decode::mappings::{contract, crypto, events, object, wasm};

#[test]
fn lookup_returns_contract_error_detail() {
    let detail = contract::lookup(0).expect("contract error detail");
    assert_eq!(detail.name, "ContractError");
}

#[test]
fn table_covers_known_contract_codes() {
    assert_eq!(contract::contract_error_details().len(), 5);
    assert!(contract::lookup(99).is_none());
}

#[test]
fn lookup_invalid_signature() {
    let detail = crypto::lookup(1).unwrap();
    assert_eq!(detail.name, "InvalidSignature");
    assert!(detail.summary.contains("Signature verification"));
}

#[test]
fn unknown_crypto_error() {
    assert!(crypto::lookup(999).is_none());
}

#[test]
fn lookup_returns_exceeded_limit_for_code_5() {
    let detail = events::lookup(5).expect("exceeded limit detail");
    assert_eq!(detail.name, "ExceededLimit");
    assert!(detail.summary.contains("too many topics") || detail.summary.to_lowercase().contains("topics"));
}

#[test]
fn lookup_returns_unexpected_size_for_code_9() {
    let detail = events::lookup(9).expect("unexpected size detail");
    assert_eq!(detail.name, "UnexpectedSize");
    assert!(detail.summary.to_lowercase().contains("payload") || detail.summary.to_lowercase().contains("size"));
}

#[test]
fn lookup_returns_invalid_input_for_code_2() {
    let detail = events::lookup(2).expect("invalid input detail");
    assert_eq!(detail.name, "InvalidInput");
}

#[test]
fn table_covers_all_known_events_codes() {
    assert_eq!(events::events_error_details().len(), 10);
    assert!(events::lookup(99).is_none());
}

#[test]
fn events_codes_are_contiguous_and_unique() {
    for (i, detail) in events::events_error_details().iter().enumerate() {
        assert_eq!(detail.code as usize, i, "codes should be contiguous from 0");
    }
}

#[test]
fn lookup_returns_out_of_bounds_memory_detail() {
    let detail = wasm::lookup(2).expect("memory access out of bounds detail");
    assert_eq!(detail.name, "MemoryAccessOutOfBounds");
    assert!(detail.summary.contains("out-of-bounds memory access"));
}

#[test]
fn lookup_returns_invalid_module_for_code_zero() {
    let detail = wasm::lookup(0).expect("invalid module detail");
    assert_eq!(detail.name, "InvalidModule");
}

#[test]
fn table_covers_known_wasm_codes() {
    assert_eq!(wasm::wasm_error_details().len(), 9);
    assert!(wasm::lookup(99).is_none());
}

#[test]
fn wasm_codes_are_contiguous_and_unique() {
    for (i, detail) in wasm::wasm_error_details().iter().enumerate() {
        assert_eq!(detail.code as usize, i, "codes should be contiguous from 0");
    }
}

#[test]
fn every_table_entry_is_found_by_lookup() {
    for d in events::events_error_details() {
        assert_eq!(events::lookup(d.code), Some(d));
    }
    for d in wasm::wasm_error_details() {
        assert_eq!(wasm::lookup(d.code), Some(d));
    }
    for d in contract::contract_error_details() {
        assert_eq!(contract::lookup(d.code), Some(d));
    }
    for d in crypto::crypto_error_details() {
        assert_eq!(crypto::lookup(d.code), Some(d));
    }
    for d in object::object_error_mappings() {
        assert_eq!(object::resolve_object_error(d.code), Some(d));
    }
}
