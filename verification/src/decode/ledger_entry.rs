//! Ledger entries as the RPC node returns them: reading the first entry of a
//! `getLedgerEntries` answer, and the parts of an entry's XDR that locate a
//! contract's WASM code.

use vstd::prelude::*;
use crate::json::{json_view, lemma_json_seq_view_index, lemma_members_view_index, Json, JsonValue};
use crate::json::{find_member, member_position};
use crate::rpc::client::entries_array;
use stellar_xdr::curr::{
    ContractDataDurability, ContractExecutable, LedgerEntry, LedgerEntryData, LedgerKey,
    LedgerKeyContractCode, LedgerKeyContractData, Limits, ReadXdr, ScAddress, ScVal, WriteXdr,
};

verus! {

/// What the first entry of a `getLedgerEntries` answer carries.
pub enum FirstEntry {
    /// The answer has no `entries` array.
    MissingArray,
    /// The `entries` array is empty.
    Empty,
    /// The first entry has no `xdr` text.
    MissingXdr,
    /// The `xdr` text of the first entry.
    Xdr(Seq<char>),
}

/// The first entry of a `getLedgerEntries` answer.
pub open spec fn first_entry_of(v: JsonValue) -> FirstEntry {
    match entries_array(v) {
        None => FirstEntry::MissingArray,
        Some(items) => if items.len() == 0 {
            FirstEntry::Empty
        } else {
            match items[0] {
                JsonValue::Object(m) => {
                    let p = member_position(m, "xdr"@);
                    if p >= 0 {
                        match m[p].1 {
                            JsonValue::Str(s) => FirstEntry::Xdr(s),
                            _ => FirstEntry::MissingXdr,
                        }
                    } else {
                        FirstEntry::MissingXdr
                    }
                },
                _ => FirstEntry::MissingXdr,
            }
        },
    }
}

/// What the first entry of an answer carries, with the `xdr` text as a string.
pub enum FirstEntryXdr {
    MissingArray,
    Empty,
    MissingXdr,
    Xdr(String),
}

/// The view of a `FirstEntryXdr`.
pub open spec fn first_entry_view(f: FirstEntryXdr) -> FirstEntry {
    match f {
        FirstEntryXdr::MissingArray => FirstEntry::MissingArray,
        FirstEntryXdr::Empty => FirstEntry::Empty,
        FirstEntryXdr::MissingXdr => FirstEntry::MissingXdr,
        FirstEntryXdr::Xdr(s) => FirstEntry::Xdr(s@),
    }
}

/// The `xdr` text of an entry.
fn entry_xdr(entry: &Json) -> (r: Option<String>)
    ensures
        match r {
            Some(s) => match json_view(*entry) {
                JsonValue::Object(m) => {
                    let p = member_position(m, "xdr"@);
                    p >= 0 && m[p].1 == JsonValue::Str(s@)
                },
                _ => false,
            },
            None => match json_view(*entry) {
                JsonValue::Object(m) => {
                    let p = member_position(m, "xdr"@);
                    p < 0 || !(m[p].1 is Str)
                },
                _ => true,
            },
        },
{
    match entry {
        Json::Object(members) => {
            let pos = find_member(members, "xdr");
            proof {
                lemma_members_view_index(members@);
            }
            match pos {
                Some(p) => match &members[p].value {
                    Json::String(s) => Some(s.clone()),
                    _ => None,
                },
                None => None,
            }
        },
        _ => None,
    }
}

/// Reads the first entry of a `getLedgerEntries` answer.
pub fn first_entry_xdr(response: &Json) -> (r: FirstEntryXdr)
    ensures
        first_entry_view(r) == first_entry_of(json_view(*response)),
{
    match response {
        Json::Object(members) => {
            let pos = find_member(members, "entries");
            proof {
                lemma_members_view_index(members@);
            }
            match pos {
                Some(p) => match &members[p].value {
                    Json::Array(items) => {
                        proof {
                            lemma_json_seq_view_index(items@);
                        }
                        if items.len() == 0 {
                            FirstEntryXdr::Empty
                        } else {
                            match entry_xdr(&items[0]) {
                                Some(s) => FirstEntryXdr::Xdr(s),
                                None => FirstEntryXdr::MissingXdr,
                            }
                        }
                    },
                    _ => FirstEntryXdr::MissingArray,
                },
                None => FirstEntryXdr::MissingArray,
            }
        },
        _ => FirstEntryXdr::MissingArray,
    }
}

/// The parts of a ledger entry that locate a contract's WASM code.
#[derive(Debug)]
pub enum LedgerEntryShape {
    /// Contract data holding a contract instance whose executable is WASM
    /// with this hash.
    WasmInstance([u8; 32]),
    /// Contract data holding a contract instance of another executable.
    OtherInstance,
    /// Contract data holding some other value.
    OtherContractData,
    /// Contract code with these bytes.
    ContractCode(Vec<u8>),
    /// Any other kind of entry.
    Other,
}

/// The view of a ledger entry's shape.
pub enum ShapeView {
    WasmInstance(Seq<u8>),
    OtherInstance,
    OtherContractData,
    ContractCode(Seq<u8>),
    Other,
}

/// The view of a `LedgerEntryShape`.
pub open spec fn shape_view(s: LedgerEntryShape) -> ShapeView {
    match s {
        LedgerEntryShape::WasmInstance(h) => ShapeView::WasmInstance(h@),
        LedgerEntryShape::OtherInstance => ShapeView::OtherInstance,
        LedgerEntryShape::OtherContractData => ShapeView::OtherContractData,
        LedgerEntryShape::ContractCode(c) => ShapeView::ContractCode(c@),
        LedgerEntryShape::Other => ShapeView::Other,
    }
}

/// What `stellar_xdr` makes of base64 text read as a `LedgerEntry` with
/// nesting limited to `depth`: its shape, or the text of the decoding error.
pub uninterp spec fn ledger_entry_from_base64(b64: Seq<char>, depth: u32) -> Result<ShapeView, Seq<char>>;

/// What `stellar_xdr` makes of bytes read as a `LedgerEntry` with nesting
/// limited to `depth`: its shape, or the text of the decoding error.
pub uninterp spec fn ledger_entry_from_bytes(bytes: Seq<u8>, depth: u32) -> Result<ShapeView, Seq<char>>;

/// The base64 XDR of the `LedgerKey` of a contract's persistent instance entry.
pub uninterp spec fn instance_key_base64(hash: Seq<u8>) -> Result<Seq<char>, Seq<char>>;

/// The base64 XDR of the `LedgerKey` of the contract code with a hash.
pub uninterp spec fn code_key_base64(hash: Seq<u8>) -> Result<Seq<char>, Seq<char>>;

/// Decodes base64 text as a `LedgerEntry` with `stellar_xdr`'s
/// `ReadXdr::from_xdr_base64` (nesting limited to `depth`, no length limit;
/// input nested deeper is a decoding error) and takes its shape. The claim:
/// the outcome is `ledger_entry_from_base64(b64, depth)`, a function of the
/// text and the limit.
#[verifier::external_body]
pub(crate) fn decode_ledger_entry_base64(b64: &str, depth: u32) -> (r: Result<LedgerEntryShape, String>)
    ensures
        match r {
            Ok(s) => ledger_entry_from_base64(b64@, depth) == Ok::<ShapeView, Seq<char>>(shape_view(s)),
            Err(e) => ledger_entry_from_base64(b64@, depth) == Err::<ShapeView, Seq<char>>(e@),
        },
{
    match LedgerEntry::from_xdr_base64(b64, Limits::depth(depth)) {
        Ok(entry) => Ok(match entry.data {
            LedgerEntryData::ContractData(data) => match data.val {
                ScVal::ContractInstance(instance) => match instance.executable {
                    ContractExecutable::Wasm(hash) => LedgerEntryShape::WasmInstance(hash.0),
                    _ => LedgerEntryShape::OtherInstance,
                },
                _ => LedgerEntryShape::OtherContractData,
            },
            LedgerEntryData::ContractCode(code) => LedgerEntryShape::ContractCode(code.code.to_vec()),
            _ => LedgerEntryShape::Other,
        }),
        Err(e) => Err(e.to_string()),
    }
}

/// Decodes bytes as a `LedgerEntry` with `stellar_xdr`'s `ReadXdr::from_xdr`
/// (nesting limited to `depth`, no length limit; input nested deeper is a
/// decoding error) and takes its shape. The claim: the outcome is
/// `ledger_entry_from_bytes(bytes, depth)`, a function of the bytes and the
/// limit.
#[verifier::external_body]
pub(crate) fn decode_ledger_entry_bytes(bytes: &[u8], depth: u32) -> (r: Result<LedgerEntryShape, String>)
    ensures
        match r {
            Ok(s) => ledger_entry_from_bytes(bytes@, depth) == Ok::<ShapeView, Seq<char>>(shape_view(s)),
            Err(e) => ledger_entry_from_bytes(bytes@, depth) == Err::<ShapeView, Seq<char>>(e@),
        },
{
    match LedgerEntry::from_xdr(bytes, Limits::depth(depth)) {
        Ok(entry) => Ok(match entry.data {
            LedgerEntryData::ContractData(data) => match data.val {
                ScVal::ContractInstance(instance) => match instance.executable {
                    ContractExecutable::Wasm(hash) => LedgerEntryShape::WasmInstance(hash.0),
                    _ => LedgerEntryShape::OtherInstance,
                },
                _ => LedgerEntryShape::OtherContractData,
            },
            LedgerEntryData::ContractCode(code) => LedgerEntryShape::ContractCode(code.code.to_vec()),
            _ => LedgerEntryShape::Other,
        }),
        Err(e) => Err(e.to_string()),
    }
}

/// Encodes, with `stellar_xdr`'s `WriteXdr::to_xdr_base64` (no limits), the
/// `LedgerKey::ContractData` of the persistent contract-instance entry of
/// the contract with this hash. The claim: the outcome is
/// `instance_key_base64(hash)`, a function of the hash.
#[verifier::external_body]
pub(crate) fn encode_instance_key(hash: &[u8; 32]) -> (r: Result<String, String>)
    ensures
        match r {
            Ok(s) => instance_key_base64(hash@) == Ok::<Seq<char>, Seq<char>>(s@),
            Err(e) => instance_key_base64(hash@) == Err::<Seq<char>, Seq<char>>(e@),
        },
{
    let key = LedgerKey::ContractData(LedgerKeyContractData {
        contract: ScAddress::Contract(stellar_xdr::curr::Hash(*hash)),
        key: ScVal::LedgerKeyContractInstance,
        durability: ContractDataDurability::Persistent,
    });
    key.to_xdr_base64(Limits::none()).map_err(|e| e.to_string())
}

/// Encodes, with `stellar_xdr`'s `WriteXdr::to_xdr_base64` (no limits), the
/// `LedgerKey::ContractCode` of the code with this hash. The claim: the
/// outcome is `code_key_base64(hash)`, a function of the hash.
#[verifier::external_body]
pub(crate) fn encode_code_key(hash: &[u8; 32]) -> (r: Result<String, String>)
    ensures
        match r {
            Ok(s) => code_key_base64(hash@) == Ok::<Seq<char>, Seq<char>>(s@),
            Err(e) => code_key_base64(hash@) == Err::<Seq<char>, Seq<char>>(e@),
        },
{
    let key = LedgerKey::ContractCode(LedgerKeyContractCode { hash: stellar_xdr::curr::Hash(*hash) });
    key.to_xdr_base64(Limits::none()).map_err(|e| e.to_string())
}

} // verus!
