use prism_core::decode::scval_to_json::{scval_to_json, MAX_SCVAL_DEPTH};
use prism_core::json::{to_json_text, Json, JsonMember};
use prism_core::xdr::{
    ContractExecutable, Int128Parts, Int256Parts, Address, ScContractInstance, ErrorValue, ErrorCode,
    ScMapEntry, ScValue, UInt128Parts, UInt256Parts,
};

fn sym(s: &str) -> ScValue {
    ScValue::Symbol(s.as_bytes().to_vec())
}

fn string(s: &str) -> ScValue {
    ScValue::String(s.as_bytes().to_vec())
}

fn s(text: &str) -> Json {
    Json::String(text.to_string())
}

fn get<'a>(j: &'a Json, key: &str) -> &'a Json {
    match j {
        Json::Object(members) => &members.iter().find(|m| m.key == key).expect("member").value,
        _ => panic!("not an object"),
    }
}

fn obj(members: Vec<(&str, Json)>) -> Json {
    Json::Object(members.into_iter().map(|(k, v)| JsonMember { key: k.to_string(), value: v }).collect())
}

#[test]
fn primitives_map_directly() {
    assert_eq!(scval_to_json(&ScValue::Bool(true)), Json::Bool(true));
    assert_eq!(scval_to_json(&ScValue::Void), Json::Null);
    assert_eq!(scval_to_json(&ScValue::U32(42)), Json::Number(42));
    assert_eq!(scval_to_json(&ScValue::I32(-7)), Json::Number(-7));
    assert_eq!(scval_to_json(&ScValue::U64(u64::MAX)), Json::Number(u64::MAX as i128));
    assert_eq!(scval_to_json(&ScValue::I64(i64::MIN)), Json::Number(i64::MIN as i128));
}

#[test]
fn timepoint_and_duration_unwrap_to_numbers() {
    assert_eq!(scval_to_json(&ScValue::Timepoint(100)), Json::Number(100));
    assert_eq!(scval_to_json(&ScValue::Duration(50)), Json::Number(50));
}

#[test]
fn symbol_and_string_become_utf8() {
    assert_eq!(scval_to_json(&sym("hello")), s("hello"));
    assert_eq!(scval_to_json(&string("world")), s("world"));
}

#[test]
fn bytes_become_hex_string() {
    let bytes = ScValue::Bytes(vec![0xDE, 0xAD, 0xBE, 0xEF]);
    assert_eq!(scval_to_json(&bytes), s("0xdeadbeef"));
}

#[test]
fn vec_recurses_into_array() {
    let v = ScValue::Vec(Some(vec![ScValue::U32(1), ScValue::U32(2), sym("three")]));
    assert_eq!(scval_to_json(&v), Json::Array(vec![Json::Number(1), Json::Number(2), s("three")]));
}

#[test]
fn empty_vec_and_absent_vec_are_distinguishable() {
    assert_eq!(scval_to_json(&ScValue::Vec(Some(vec![]))), Json::Array(vec![]));
    assert_eq!(scval_to_json(&ScValue::Vec(None)), Json::Null);
}

#[test]
fn map_recurses_into_object_with_string_keys() {
    let m = ScValue::MapVal(Some(vec![
        ScMapEntry { key: sym("name"), val: sym("grat") },
        ScMapEntry { key: ScValue::U32(7), val: ScValue::Bool(true) },
    ]));
    let result = scval_to_json(&m);
    assert_eq!(get(&result, "name"), &s("grat"));
    assert_eq!(get(&result, "7"), &Json::Bool(true));
}

#[test]
fn map_with_colliding_stringified_keys_falls_back_to_entries_array() {
    let m = ScValue::MapVal(Some(vec![
        ScMapEntry { key: ScValue::U32(7), val: sym("from_number") },
        ScMapEntry { key: string("7"), val: sym("from_string") },
    ]));
    let result = scval_to_json(&m);
    let entries = match &result {
        Json::Array(items) => items,
        _ => panic!("collision falls back to array"),
    };
    assert_eq!(entries.len(), 2);
    assert_eq!(get(&entries[0], "key"), &Json::Number(7));
    assert_eq!(get(&entries[0], "value"), &s("from_number"));
    assert_eq!(get(&entries[1], "key"), &s("7"));
    assert_eq!(get(&entries[1], "value"), &s("from_string"));
}

#[test]
fn non_colliding_map_is_still_rendered_as_object() {
    let m = ScValue::MapVal(Some(vec![
        ScMapEntry { key: ScValue::U32(1), val: ScValue::Bool(true) },
        ScMapEntry { key: ScValue::U32(2), val: ScValue::Bool(false) },
    ]));
    let result = scval_to_json(&m);
    assert!(matches!(result, Json::Object(_)));
    assert_eq!(get(&result, "1"), &Json::Bool(true));
    assert_eq!(get(&result, "2"), &Json::Bool(false));
}

#[test]
fn address_renders_as_strkey() {
    let contract = ScValue::Address(Address::Contract([7u8; 32]));
    match scval_to_json(&contract) {
        Json::String(t) => {
            assert!(t.starts_with('C'));
            assert_eq!(t, format!("{}", stellar_strkey::Contract([7u8; 32])));
        }
        _ => panic!("expected a string"),
    }
}

#[test]
fn ledger_key_variants_render() {
    assert_eq!(scval_to_json(&ScValue::LedgerKeyContractInstance), s("LedgerKeyContractInstance"));
    assert_eq!(scval_to_json(&ScValue::LedgerKeyNonce(5)), obj(vec![("nonce", Json::Number(5))]));
}

#[test]
fn error_variant_renders_type_and_code() {
    let err = ScValue::Error(ErrorValue::Contract(4));
    assert_eq!(to_json_text(&scval_to_json(&err)), r#"{"code":4,"type":"Contract"}"#);
    let host_err = ScValue::Error(ErrorValue::Storage(ErrorCode::MissingValue));
    assert_eq!(to_json_text(&scval_to_json(&host_err)), r#"{"code":"MissingValue","type":"Storage"}"#);
}

#[test]
fn u128_round_trips_to_decimal_string() {
    let max = ScValue::U128(UInt128Parts { hi: u64::MAX, lo: u64::MAX });
    assert_eq!(scval_to_json(&max), s("340282366920938463463374607431768211455"));
}

#[test]
fn i128_round_trips_to_decimal_string() {
    let min = ScValue::I128(Int128Parts { hi: i64::MIN, lo: 0 });
    assert_eq!(scval_to_json(&min), s("-170141183460469231731687303715884105728"));
}

#[test]
fn u256_max_round_trips_to_decimal_string() {
    let max = ScValue::U256(UInt256Parts { hi_hi: u64::MAX, hi_lo: u64::MAX, lo_hi: u64::MAX, lo_lo: u64::MAX });
    assert_eq!(
        scval_to_json(&max),
        s("115792089237316195423570985008687907853269984665640564039457584007913129639935")
    );
}

#[test]
fn u256_mixed_limbs_round_trip() {
    let v = ScValue::U256(UInt256Parts { hi_hi: 1, hi_lo: 0, lo_hi: 0, lo_lo: 1 });
    assert_eq!(scval_to_json(&v), s("6277101735386680763835789423207666416102355444464034512897"));
    let v2 = ScValue::U256(UInt256Parts { hi_hi: 0, hi_lo: 12345, lo_hi: 67890, lo_lo: 111 });
    assert_eq!(scval_to_json(&v2), s("4200785819638985332707708983909320029634671"));
}

#[test]
fn i256_min_round_trips_to_decimal_string() {
    let min = ScValue::I256(Int256Parts { hi_hi: i64::MIN, hi_lo: 0, lo_hi: 0, lo_lo: 0 });
    assert_eq!(
        scval_to_json(&min),
        s("-57896044618658097711785492504343953926634992332820282019728792003956564819968")
    );
}

#[test]
fn i256_zero_has_no_negative_sign() {
    let zero = ScValue::I256(Int256Parts { hi_hi: 0, hi_lo: 0, lo_hi: 0, lo_lo: 0 });
    assert_eq!(scval_to_json(&zero), s("0"));
}

#[test]
fn deeply_nested_vec_does_not_overflow_and_is_truncated() {
    let mut current = ScValue::U32(1);
    for _ in 0..(MAX_SCVAL_DEPTH + 50) {
        current = ScValue::Vec(Some(vec![current]));
    }
    let result = scval_to_json(&current);
    let mut node = &result;
    let mut found_marker = false;
    for _ in 0..(MAX_SCVAL_DEPTH + 50) {
        if let Json::Object(members) = node {
            if members.iter().any(|m| m.key == "__truncated__") {
                found_marker = true;
                break;
            }
        }
        match node {
            Json::Array(items) if !items.is_empty() => node = &items[0],
            _ => break,
        }
    }
    assert!(found_marker, "expected truncation marker in nested output");
}

#[test]
fn contract_instance_renders_executable_and_storage() {
    let instance = ScValue::ContractInstance(ScContractInstance {
        executable: ContractExecutable::Wasm([1u8; 32]),
        storage: Some(vec![ScMapEntry { key: sym("k"), val: ScValue::U32(9) }]),
    });
    let result = scval_to_json(&instance);
    assert_eq!(get(get(&result, "executable"), "type"), &s("Wasm"));
    match get(get(&result, "executable"), "wasmHash") {
        Json::String(h) => assert!(h.starts_with("0x")),
        _ => panic!("expected a string"),
    }
    assert_eq!(get(get(&result, "storage"), "k"), &Json::Number(9));
}

#[test]
fn contract_instance_storage_collision_falls_back_to_entries_array() {
    let instance = ScValue::ContractInstance(ScContractInstance {
        executable: ContractExecutable::StellarAsset,
        storage: Some(vec![
            ScMapEntry { key: ScValue::U32(1), val: ScValue::U32(100) },
            ScMapEntry { key: string("1"), val: ScValue::U32(200) },
        ]),
    });
    let result = scval_to_json(&instance);
    match get(&result, "storage") {
        Json::Array(items) => assert_eq!(items.len(), 2),
        _ => panic!("colliding storage keys fall back to array"),
    }
}

#[test]
fn invalid_utf8_is_replaced() {
    assert_eq!(scval_to_json(&ScValue::String(vec![0x66, 0xFF, 0x6F])), s("f\u{FFFD}o"));
}

#[test]
fn json_text_escapes_strings() {
    assert_eq!(to_json_text(&s("a\"b\n")), r#""a\"b\n""#);
    assert_eq!(to_json_text(&Json::Array(vec![Json::Null, Json::Bool(false), Json::Number(-3)])), "[null,false,-3]");
}
