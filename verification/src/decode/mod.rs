//! The decode engine: error classification, value rendering and failure attribution.

pub mod auth;
pub mod auth_address_nonce;
pub mod auth_signature;
pub mod contract_error;
pub mod contract_error_resolver;
pub mod cross_contract;
pub mod decode_context;
pub mod diagnostic;
pub mod host_error;
pub mod hosterror;
pub mod ledger_entry;
pub mod mappings;
pub mod report;
pub mod scval_to_json;

use vstd::prelude::*;
use crate::decode::hosterror::{decode_transaction_result, transaction_result_from_base64};
use crate::decode::hosterror::ClassifiedError;
use crate::decode::report::is_report_of;
use crate::error::{GratError, GratResult};
use crate::taxonomy::schema::ErrorCategory;
use crate::types::report::DiagnosticReport;
use crate::xdr::XDR_READ_DEPTH;
use crate::json::{
    get_str_member, json_seq_view, json_view, lemma_json_seq_view_index, lemma_members_view_index,
    member_position, members_view, object_insert, object_insert_member, str_member, Json, JsonMember,
    JsonValue,
};
use stellar_xdr::curr as sx;
use stellar_xdr::curr::{ReadXdr, WriteXdr};

verus! {

/// The value of the member with key `k`, if any.
pub open spec fn member_value(v: JsonValue, k: Seq<char>) -> Option<JsonValue> {
    match v {
        JsonValue::Object(m) => {
            let p = member_position(m, k);
            if p >= 0 {
                Some(m[p].1)
            } else {
                None
            }
        },
        _ => None,
    }
}

/// An object with the value of its member `k` replaced.
pub open spec fn replace_member(v: JsonValue, k: Seq<char>, x: JsonValue) -> JsonValue {
    match v {
        JsonValue::Object(m) => JsonValue::Object(m.update(member_position(m, k), (k, x))),
        _ => v,
    }
}

/// An object with member `k` set to `x`, as indexing a JSON object for
/// assignment does: an existing member is replaced, a new one inserted in
/// key order.
pub open spec fn set_member(v: JsonValue, k: Seq<char>, x: JsonValue) -> JsonValue {
    match v {
        JsonValue::Object(m) => JsonValue::Object(object_insert(m, k, x)),
        _ => v,
    }
}

/// The items kept of an array of contract events for operation `op`: the
/// operation's own, or none when there is no such operation.
pub open spec fn kept_contract_events(items: Seq<JsonValue>, op: int) -> Seq<JsonValue> {
    if 0 <= op < items.len() {
        seq![items[op]]
    } else {
        Seq::empty()
    }
}

/// The items kept of an array of diagnostic events for operation `op`: the
/// first, for the first operation, and none otherwise.
pub open spec fn kept_diagnostic_events(items: Seq<JsonValue>, op: int) -> Seq<JsonValue> {
    if op == 0 && items.len() > 0 {
        seq![items[0]]
    } else {
        Seq::empty()
    }
}

/// A transaction's JSON narrowed to one operation's events.
pub open spec fn filtered_for_operation(v: JsonValue, op: int) -> JsonValue {
    let v1 = match member_value(v, "events"@) {
        Some(ev) => match member_value(ev, "contractEventsXdr"@) {
            Some(JsonValue::Array(items)) => replace_member(
                v,
                "events"@,
                replace_member(ev, "contractEventsXdr"@, JsonValue::Array(kept_contract_events(items, op))),
            ),
            _ => v,
        },
        None => v,
    };
    match member_value(v1, "diagnosticEventsXdr"@) {
        Some(JsonValue::Array(items)) => replace_member(
            v1,
            "diagnosticEventsXdr"@,
            JsonValue::Array(kept_diagnostic_events(items, op)),
        ),
        _ => v1,
    }
}

/// Where a key first occurs depends only on the keys.
proof fn lemma_position_same_keys(m1: Seq<(Seq<char>, JsonValue)>, m2: Seq<(Seq<char>, JsonValue)>, k: Seq<char>)
    requires
        m1.len() == m2.len(),
        forall|i: int| 0 <= i < m1.len() ==> #[trigger] m1[i].0 == m2[i].0,
    ensures
        member_position(m1, k) == member_position(m2, k),
    decreases m1.len(),
{
    if m1.len() > 0 {
        assert(m1[0].0 == m2[0].0);
        let (r1, r2) = (m1.drop_first(), m2.drop_first());
        assert forall|i: int| 0 <= i < r1.len() implies #[trigger] r1[i].0 == r2[i].0 by {
            assert(r1[i] == m1[i + 1] && r2[i] == m2[i + 1]);
        }
        lemma_position_same_keys(r1, r2, k);
    }
}

/// A found position is in bounds and holds the key.
proof fn lemma_position_holds_key(m: Seq<(Seq<char>, JsonValue)>, k: Seq<char>)
    requires
        member_position(m, k) >= 0,
    ensures
        member_position(m, k) < m.len(),
        m[member_position(m, k)].0 == k,
    decreases m.len(),
{
    if m[0].0 != k {
        lemma_position_holds_key(m.drop_first(), k);
        assert(m[member_position(m, k)] == m.drop_first()[member_position(m.drop_first(), k)]);
    }
}

/// Replacing a present member sets that member and leaves the others.
proof fn lemma_replace_member(v: JsonValue, k: Seq<char>, x: JsonValue, k2: Seq<char>)
    requires
        member_value(v, k) is Some,
    ensures
        member_value(replace_member(v, k, x), k) == Some(x),
        k2 != k ==> member_value(replace_member(v, k, x), k2) == member_value(v, k2),
{
    let m = v->Object_0;
    let p = member_position(m, k);
    lemma_position_holds_key(m, k);
    let m2 = m.update(p, (k, x));
    assert forall|i: int| 0 <= i < m.len() implies #[trigger] m[i].0 == m2[i].0 by {}
    lemma_position_same_keys(m, m2, k);
    lemma_position_same_keys(m, m2, k2);
    if k2 != k && member_position(m, k2) >= 0 {
        lemma_position_holds_key(m, k2);
    }
}

/// Narrowing a transaction to one operation leaves at most one contract
/// event and at most one diagnostic event.
pub proof fn law_filter_keeps_at_most_one_event(v: JsonValue, op: int)
    ensures
        member_value(filtered_for_operation(v, op), "diagnosticEventsXdr"@) matches Some(JsonValue::Array(items))
            ==> items.len() <= 1,
        member_value(filtered_for_operation(v, op), "events"@) matches Some(ev) ==> (member_value(
            ev,
            "contractEventsXdr"@,
        ) matches Some(JsonValue::Array(items)) ==> items.len() <= 1),
{
    let (ek, ck, dk) = ("events"@, "contractEventsXdr"@, "diagnosticEventsXdr"@);
    assert(ek != dk) by {
        reveal_strlit("events");
        reveal_strlit("diagnosticEventsXdr");
        assert(ek.len() != dk.len());
    }
    let v1 = match member_value(v, ek) {
        Some(ev) => match member_value(ev, ck) {
            Some(JsonValue::Array(items)) => replace_member(
                v,
                ek,
                replace_member(ev, ck, JsonValue::Array(kept_contract_events(items, op))),
            ),
            _ => v,
        },
        None => v,
    };
    match member_value(v, ek) {
        Some(ev) => match member_value(ev, ck) {
            Some(JsonValue::Array(items)) => {
                let ev2 = replace_member(ev, ck, JsonValue::Array(kept_contract_events(items, op)));
                lemma_replace_member(ev, ck, JsonValue::Array(kept_contract_events(items, op)), ck);
                lemma_replace_member(v, ek, ev2, dk);
            },
            _ => {},
        },
        None => {},
    }
    match member_value(v1, dk) {
        Some(JsonValue::Array(items)) => {
            lemma_replace_member(v1, dk, JsonValue::Array(kept_diagnostic_events(items, op)), ek);
        },
        _ => {},
    }
}

/// Takes the value of member `p` out of an object's members, leaving null.
fn take_member_value(members: &mut Vec<JsonMember>, p: usize) -> (v: Json)
    requires
        p < old(members)@.len(),
    ensures
        final(members)@.len() == old(members)@.len(),
        json_view(v) == members_view(old(members)@)[p as int].1,
        members_view(final(members)@) == members_view(old(members)@).update(
            p as int,
            (members_view(old(members)@)[p as int].0, JsonValue::Null),
        ),
{
    proof {
        lemma_members_view_index(members@);
    }
    let ghost before = members@;
    let m = members.remove(p);
    let placeholder = JsonMember { key: m.key, value: Json::Null };
    members.insert(p, placeholder);
    proof {
        assert(members@ =~= before.update(p as int, placeholder));
        lemma_members_view_index(members@);
        assert(members_view(members@) =~= members_view(before).update(
            p as int,
            (members_view(before)[p as int].0, JsonValue::Null),
        ));
    }
    m.value
}

/// Sets the value of member `p` of an object's members.
fn put_member_value(members: &mut Vec<JsonMember>, p: usize, v: Json)
    requires
        p < old(members)@.len(),
    ensures
        final(members)@.len() == old(members)@.len(),
        members_view(final(members)@) == members_view(old(members)@).update(
            p as int,
            (members_view(old(members)@)[p as int].0, json_view(v)),
        ),
{
    proof {
        lemma_members_view_index(members@);
    }
    let ghost before = members@;
    let m = members.remove(p);
    let nm = JsonMember { key: m.key, value: v };
    members.insert(p, nm);
    proof {
        assert(members@ =~= before.update(p as int, nm));
        lemma_members_view_index(members@);
        assert(members_view(members@) =~= members_view(before).update(
            p as int,
            (members_view(before)[p as int].0, json_view(v)),
        ));
    }
}

/// Keeps of an array the items selected for operation `op`.
fn keep_items(items: Vec<Json>, op: usize, diagnostic: bool) -> (r: Vec<Json>)
    ensures
        json_seq_view(r@) == if diagnostic {
            kept_diagnostic_events(json_seq_view(items@), op as int)
        } else {
            kept_contract_events(json_seq_view(items@), op as int)
        },
{
    proof {
        lemma_json_seq_view_index(items@);
    }
    let mut items = items;
    let selected: usize = if diagnostic { 0 } else { op };
    let keep = if diagnostic { op == 0 && items.len() > 0 } else { op < items.len() };
    if keep {
        let x = items.swap_remove(selected);
        let ghost xv = json_view(x);
        let r = vec![x];
        proof {
            lemma_json_seq_view_index(r@);
        }
        assert(json_seq_view(r@) =~= seq![xv]);
        r
    } else {
        let r: Vec<Json> = Vec::new();
        assert(json_seq_view(r@) =~= Seq::<JsonValue>::empty());
        r
    }
}

/// Narrows the member `key` of an object, when it is an array, to the
/// items selected for operation `op`.
fn narrow_array_member(j: &mut Json, key: &str, op: usize, diagnostic: bool)
    ensures
        json_view(*final(j)) == match member_value(json_view(*old(j)), key@) {
            Some(JsonValue::Array(items)) => replace_member(
                json_view(*old(j)),
                key@,
                JsonValue::Array(
                    if diagnostic {
                        kept_diagnostic_events(items, op as int)
                    } else {
                        kept_contract_events(items, op as int)
                    },
                ),
            ),
            _ => json_view(*old(j)),
        },
{
    let ghost old_view = json_view(*j);
    let mut owned = Json::Null;
    std::mem::swap(&mut owned, j);
    match owned {
        Json::Object(members) => {
            let mut members = members;
            let pos = crate::json::find_member(&members, key);
            match pos {
                Some(p) => {
                    proof {
                        lemma_members_view_index(members@);
                    }
                    let ghost mv = members_view(members@);
                    assert(old_view == JsonValue::Object(mv));
                    assert(member_position(mv, key@) == p);
                    assert(mv[p as int].0 == key@);
                    let value = take_member_value(&mut members, p);
                    assert(member_value(old_view, key@) == Some(json_view(value)));
                    match value {
                        Json::Array(items) => {
                            let ghost iv = json_seq_view(items@);
                            let kept = keep_items(items, op, diagnostic);
                            let ghost kv = json_seq_view(kept@);
                            put_member_value(&mut members, p, Json::Array(kept));
                            assert(members_view(members@) =~= mv.update(p as int, (key@, JsonValue::Array(kv))));
                        },
                        other => {
                            put_member_value(&mut members, p, other);
                            assert(members_view(members@) =~= mv);
                            assert(!(json_view(other) is Array));
                        },
                    }
                    *j = Json::Object(members);
                },
                None => {
                    *j = Json::Object(members);
                },
            }
        },
        other => {
            *j = other;
        },
    }
}

/// Narrows a transaction's JSON to the events of one operation: its
/// contract events keep only that operation's entry (none when there is no
/// such operation), and its diagnostic events keep only the first, for the
/// first operation, and none otherwise.
pub fn filter_transaction_by_operation(tx_data: &mut Json, op_index: usize) -> (r: GratResult<()>)
    ensures
        r is Ok,
        json_view(*final(tx_data)) == filtered_for_operation(json_view(*old(tx_data)), op_index as int),
{
    let ghost v = json_view(*tx_data);
    let mut owned = Json::Null;
    std::mem::swap(&mut owned, tx_data);
    match owned {
        Json::Object(members) => {
            let mut members = members;
            let pos = crate::json::find_member(&members, "events");
            match pos {
                Some(p) => {
                    proof {
                        lemma_members_view_index(members@);
                    }
                    let ghost mv = members_view(members@);
                    assert(v == JsonValue::Object(mv));
                    assert(member_position(mv, "events"@) == p);
                    assert(mv[p as int].0 == "events"@);
                    let mut events = take_member_value(&mut members, p);
                    let ghost ev = json_view(events);
                    assert(member_value(v, "events"@) == Some(ev));
                    narrow_array_member(&mut events, "contractEventsXdr", op_index, false);
                    put_member_value(&mut members, p, events);
                    assert(members_view(members@) =~= mv.update(p as int, ("events"@, json_view(events))));
                    proof {
                        if !(member_value(ev, "contractEventsXdr"@) matches Some(JsonValue::Array(_))) {
                            assert(mv.update(p as int, ("events"@, ev)) =~= mv);
                        }
                    }
                    *tx_data = Json::Object(members);
                },
                None => {
                    *tx_data = Json::Object(members);
                },
            }
        },
        other => {
            *tx_data = other;
        },
    }
    assert(json_view(*tx_data) == match member_value(v, "events"@) {
        Some(ev) => match member_value(ev, "contractEventsXdr"@) {
            Some(JsonValue::Array(items)) => replace_member(
                v,
                "events"@,
                replace_member(ev, "contractEventsXdr"@, JsonValue::Array(kept_contract_events(items, op_index as int))),
            ),
            _ => v,
        },
        None => v,
    });
    narrow_array_member(tx_data, "diagnosticEventsXdr", op_index, true);
    Ok(())
}

/// Sets member `key` of an object to `value`, as indexing a JSON object for
/// assignment does.
pub fn json_set(j: &mut Json, key: &str, value: Json)
    requires
        json_view(*old(j)) is Object,
    ensures
        json_view(*final(j)) == set_member(json_view(*old(j)), key@, json_view(value)),
{
    let mut owned = Json::Null;
    std::mem::swap(&mut owned, j);
    match owned {
        Json::Object(members) => {
            let mut members = members;
            object_insert_member(&mut members, String::from_str(key), value);
            *j = Json::Object(members);
        },
        other => {
            *j = other;
        },
    }
}

/// The Soroban metadata of a transaction: its contract events and
/// diagnostic events as base64 XDR (`None` for one that could not be
/// re-encoded), its return value as base64 XDR (`None` when it could not be
/// re-encoded), and whether that return value is void.
pub struct SorobanMetaParts {
    pub events: Vec<Option<String>>,
    pub diagnostic_events: Vec<Option<String>>,
    pub return_value: Option<String>,
    pub return_is_void: bool,
}

/// The parts of a transaction's metadata that the library reads: its
/// version, and the Soroban metadata that version 3 may carry (earlier
/// versions have none).
pub struct TransactionMetaParts {
    pub version: u32,
    pub soroban: Option<SorobanMetaParts>,
}

/// The views of optional strings.
pub open spec fn opt_texts_view(s: Seq<Option<String>>) -> Seq<Option<Seq<char>>> {
    s.map_values(|o: Option<String>| match o {
        Some(t) => Some(t@),
        None => None,
    })
}

/// The view of Soroban metadata: events, diagnostic events, return value,
/// whether the return value is void.
pub type SorobanMetaView = (Seq<Option<Seq<char>>>, Seq<Option<Seq<char>>>, Option<Seq<char>>, bool);

/// The view of Soroban metadata.
pub open spec fn soroban_parts_view(m: SorobanMetaParts) -> SorobanMetaView {
    (
        opt_texts_view(m.events@),
        opt_texts_view(m.diagnostic_events@),
        match m.return_value {
            Some(t) => Some(t@),
            None => None,
        },
        m.return_is_void,
    )
}

/// The view of a transaction's metadata parts.
pub open spec fn meta_parts_view(m: TransactionMetaParts) -> (u32, Option<SorobanMetaView>) {
    (
        m.version,
        match m.soroban {
            Some(sm) => Some(soroban_parts_view(sm)),
            None => None,
        },
    )
}

/// What `stellar_xdr` reads from base64 text as a `TransactionMeta`, with
/// nesting limited to `depth`: its version and, for version 3, its Soroban
/// metadata with the events and return value re-encoded as base64 XDR;
/// `None` when the text does not read as one.
pub uninterp spec fn transaction_meta_of_base64(b64: Seq<char>, depth: u32) -> Option<(u32, Option<SorobanMetaView>)>;

/// Reads a `TransactionMeta` from base64 XDR with `stellar_xdr`'s
/// `ReadXdr::from_xdr_base64` (nesting limited to `depth`, no length limit;
/// input nested deeper does not read) and takes its version and, for
/// version 3, its Soroban metadata (see `soroban_meta_model`). The claim:
/// the outcome is `transaction_meta_of_base64(b64, depth)`, a function of
/// the text and the limit.
#[verifier::external_body]
fn decode_transaction_meta(b64: &str, depth: u32) -> (r: Option<TransactionMetaParts>)
    ensures
        match r {
            Some(m) => transaction_meta_of_base64(b64@, depth) == Some(meta_parts_view(m)),
            None => transaction_meta_of_base64(b64@, depth) is None,
        },
{
    Some(match sx::TransactionMeta::from_xdr_base64(b64, sx::Limits::depth(depth)).ok()? {
        sx::TransactionMeta::V0(_) => TransactionMetaParts { version: 0, soroban: None },
        sx::TransactionMeta::V1(_) => TransactionMetaParts { version: 1, soroban: None },
        sx::TransactionMeta::V2(_) => TransactionMetaParts { version: 2, soroban: None },
        sx::TransactionMeta::V3(v3) => TransactionMetaParts { version: 3, soroban: v3.soroban_meta.as_ref().map(soroban_meta_model) },
    })
}

/// Takes `stellar_xdr`'s Soroban metadata into the model: each event and
/// the return value re-encoded with `WriteXdr::to_xdr_base64` (no limits;
/// `None` where that fails), and whether the return value is void. Used
/// only inside `decode_transaction_meta`.
#[verifier::external_body]
fn soroban_meta_model(m: &sx::SorobanTransactionMeta) -> SorobanMetaParts {
    SorobanMetaParts {
        events: m.events.iter().map(|e| e.to_xdr_base64(sx::Limits::none()).ok()).collect(),
        diagnostic_events: m.diagnostic_events.iter().map(|e| e.to_xdr_base64(sx::Limits::none()).ok()).collect(),
        return_value: m.return_value.to_xdr_base64(sx::Limits::none()).ok(),
        return_is_void: matches!(m.return_value, sx::ScVal::Void),
    }
}

/// The texts that are present, in order, as JSON strings.
pub open spec fn present_texts(s: Seq<Option<Seq<char>>>) -> Seq<JsonValue>
    decreases s.len(),
{
    if s.len() == 0 {
        Seq::empty()
    } else {
        let rest = present_texts(s.drop_last());
        match s.last() {
            Some(t) => rest.push(JsonValue::Str(t)),
            None => rest,
        }
    }
}

/// The texts that are present, in order, as JSON strings.
fn present_strings(s: &Vec<Option<String>>) -> (r: Vec<Json>)
    ensures
        json_seq_view(r@) == present_texts(opt_texts_view(s@)),
{
    let ghost sv = opt_texts_view(s@);
    let mut r: Vec<Json> = Vec::new();
    let mut i: usize = 0;
    while i < s.len()
        invariant
            i <= s@.len(),
            sv == opt_texts_view(s@),
            json_seq_view(r@) == present_texts(sv.take(i as int)),
        decreases s@.len() - i,
    {
        proof {
            assert(sv.take(i + 1).drop_last() =~= sv.take(i as int));
        }
        match &s[i] {
            Some(t) => {
                let x = Json::String(t.clone());
                let ghost prev = r@;
                r.push(x);
                proof {
                    crate::json::lemma_json_seq_view_push(prev, x);
                }
            },
            None => {},
        }
        i = i + 1;
    }
    assert(sv.take(i as int) =~= sv);
    r
}

/// A transaction's JSON with the fee charged and its Soroban metadata
/// injected: `inclusionFee` from `resultXdr`; and, when `resultMetaXdr`
/// is version 3 with Soroban metadata, `events.contractEventsXdr` and
/// `diagnosticEventsXdr` when there are such events, and `returnValue`
/// when the return value is not void and could be encoded.
pub open spec fn with_v3_metadata(v: JsonValue) -> JsonValue {
    let v1 = match str_member(v, "resultXdr"@) {
        Some(b) => match transaction_result_from_base64(b) {
            Some((fee, _)) => set_member(v, "inclusionFee"@, JsonValue::Number(fee as int)),
            None => v,
        },
        None => v,
    };
    match str_member(v1, "resultMetaXdr"@) {
        None => v1,
        Some(m) => match transaction_meta_of_base64(m, XDR_READ_DEPTH) {
            Some((version, Some((evs, diags, rv, void)))) => if version != 3 {
                v1
            } else {
                let v2 = if evs.len() > 0 {
                    set_member(
                        v1,
                        "events"@,
                        JsonValue::Object(seq![("contractEventsXdr"@, JsonValue::Array(present_texts(evs)))]),
                    )
                } else {
                    v1
                };
                let v3 = if diags.len() > 0 {
                    set_member(v2, "diagnosticEventsXdr"@, JsonValue::Array(present_texts(diags)))
                } else {
                    v2
                };
                match rv {
                    Some(s) => if void {
                        v3
                    } else {
                        set_member(v3, "returnValue"@, JsonValue::Str(s))
                    },
                    None => v3,
                }
            },
            _ => v1,
        },
    }
}

/// Looking a key up past a first member with another key.
proof fn lemma_member_value_past_first(m: Seq<(Seq<char>, JsonValue)>, k: Seq<char>)
    requires
        m.len() > 0,
        m[0].0 != k,
    ensures
        member_value(JsonValue::Object(m), k) == member_value(JsonValue::Object(m.drop_first()), k),
{
    let r = member_position(m.drop_first(), k);
    if r >= 0 {
        lemma_position_holds_key(m.drop_first(), k);
        assert(m[r + 1] == m.drop_first()[r]);
    }
}

/// Setting a member gives it the new value and leaves every other key's
/// value as it was.
proof fn lemma_object_insert_lookup(m: Seq<(Seq<char>, JsonValue)>, k: Seq<char>, x: JsonValue, k2: Seq<char>)
    ensures
        k2 == k ==> member_value(JsonValue::Object(object_insert(m, k, x)), k2) == Some(x),
        k2 != k ==> member_value(JsonValue::Object(object_insert(m, k, x)), k2) == member_value(
            JsonValue::Object(m),
            k2,
        ),
    decreases m.len(),
{
    let r = object_insert(m, k, x);
    if m.len() == 0 {
        if k2 != k {
            lemma_member_value_past_first(r, k2);
        }
    } else if crate::json::chars_lt(m[0].0, k) {
        crate::json::lemma_chars_lt_irreflexive(k);
        assert(m[0].0 != k);
        assert(r[0] == m[0]);
        assert(r.drop_first() =~= object_insert(m.drop_first(), k, x));
        lemma_object_insert_lookup(m.drop_first(), k, x, k2);
        if m[0].0 != k2 {
            lemma_member_value_past_first(r, k2);
            lemma_member_value_past_first(m, k2);
        }
    } else if m[0].0 == k {
        if k2 != k {
            assert(r.drop_first() =~= m.drop_first());
            lemma_member_value_past_first(r, k2);
            lemma_member_value_past_first(m, k2);
        }
    } else {
        if k2 != k {
            assert(r.drop_first() =~= m);
            lemma_member_value_past_first(r, k2);
        }
    }
}

/// `set_member` on an object, seen through `member_value`.
proof fn lemma_set_member_lookup(v: JsonValue, k: Seq<char>, x: JsonValue, k2: Seq<char>)
    requires
        v is Object,
    ensures
        set_member(v, k, x) is Object,
        k2 == k ==> member_value(set_member(v, k, x), k2) == Some(x),
        k2 != k ==> member_value(set_member(v, k, x), k2) == member_value(v, k2),
{
    match v {
        JsonValue::Object(m) => lemma_object_insert_lookup(m, k, x, k2),
        _ => {},
    }
}

/// The text of a member is read through its value.
proof fn lemma_str_member_is_value(v: JsonValue, k: Seq<char>)
    ensures
        str_member(v, k) == match member_value(v, k) {
            Some(JsonValue::Str(s)) => Some(s),
            _ => None::<Seq<char>>,
        },
{
}

/// With every text present, the present texts are all of them, in order.
proof fn lemma_present_texts_all(s: Seq<Option<Seq<char>>>)
    requires
        forall|i: int| 0 <= i < s.len() ==> #[trigger] s[i] is Some,
    ensures
        present_texts(s).len() == s.len(),
        forall|i: int| 0 <= i < s.len() ==> #[trigger] present_texts(s)[i] == JsonValue::Str(s[i]->0),
    decreases s.len(),
{
    if s.len() > 0 {
        let d = s.drop_last();
        assert forall|i: int| 0 <= i < d.len() implies #[trigger] d[i] is Some by {
            assert(d[i] == s[i]);
        }
        lemma_present_texts_all(d);
        assert(s.last() == s[s.len() - 1]);
        assert forall|i: int| 0 <= i < s.len() implies #[trigger] present_texts(s)[i] == JsonValue::Str(s[i]->0) by {
            if i < s.len() - 1 {
                assert(d[i] == s[i]);
            }
        }
    }
}

/// When a transaction's `resultMetaXdr` is version 3 metadata whose Soroban
/// part has diagnostic events, the shaped JSON carries them as its
/// `diagnosticEventsXdr` array: their base64 XDR texts, in order (an event
/// that could not be re-encoded is left out).
pub proof fn law_v3_diagnostic_events_are_injected(
    v: JsonValue,
    meta: Seq<char>,
    evs: Seq<Option<Seq<char>>>,
    diags: Seq<Option<Seq<char>>>,
    rv: Option<Seq<char>>,
    void: bool,
)
    requires
        v is Object,
        str_member(v, "resultMetaXdr"@) == Some(meta),
        transaction_meta_of_base64(meta, XDR_READ_DEPTH) == Some((3u32, Some((evs, diags, rv, void)))),
        diags.len() > 0,
    ensures
        member_value(with_v3_metadata(v), "diagnosticEventsXdr"@) == Some(JsonValue::Array(present_texts(diags))),
        (forall|i: int| 0 <= i < diags.len() ==> #[trigger] diags[i] is Some) ==> {
            &&& present_texts(diags).len() == diags.len()
            &&& forall|i: int| 0 <= i < diags.len() ==> #[trigger] present_texts(diags)[i] == JsonValue::Str(diags[i]->0)
        },
{
    reveal_strlit("resultXdr");
    reveal_strlit("inclusionFee");
    reveal_strlit("resultMetaXdr");
    reveal_strlit("events");
    reveal_strlit("diagnosticEventsXdr");
    reveal_strlit("returnValue");
    let key = "diagnosticEventsXdr"@;
    assert("inclusionFee"@ != "resultMetaXdr"@) by {
        assert("inclusionFee"@.len() != "resultMetaXdr"@.len());
    }
    assert("events"@ != key) by {
        assert("events"@.len() != key.len());
    }
    assert("returnValue"@ != key) by {
        assert("returnValue"@.len() != key.len());
    }
    let v1 = match str_member(v, "resultXdr"@) {
        Some(b) => match transaction_result_from_base64(b) {
            Some((fee, _)) => set_member(v, "inclusionFee"@, JsonValue::Number(fee as int)),
            None => v,
        },
        None => v,
    };
    match str_member(v, "resultXdr"@) {
        Some(b) => match transaction_result_from_base64(b) {
            Some((fee, _)) => {
                lemma_set_member_lookup(v, "inclusionFee"@, JsonValue::Number(fee as int), "resultMetaXdr"@);
            },
            None => {},
        },
        None => {},
    }
    assert(v1 is Object);
    lemma_str_member_is_value(v, "resultMetaXdr"@);
    lemma_str_member_is_value(v1, "resultMetaXdr"@);
    assert(str_member(v1, "resultMetaXdr"@) == Some(meta));
    let v2 = if evs.len() > 0 {
        set_member(
            v1,
            "events"@,
            JsonValue::Object(seq![("contractEventsXdr"@, JsonValue::Array(present_texts(evs)))]),
        )
    } else {
        v1
    };
    if evs.len() > 0 {
        lemma_set_member_lookup(
            v1,
            "events"@,
            JsonValue::Object(seq![("contractEventsXdr"@, JsonValue::Array(present_texts(evs)))]),
            key,
        );
    }
    let arr = JsonValue::Array(present_texts(diags));
    let v3 = set_member(v2, key, arr);
    lemma_set_member_lookup(v2, key, arr, key);
    match rv {
        Some(s) => if !void {
            lemma_set_member_lookup(v3, "returnValue"@, JsonValue::Str(s), key);
        },
        None => {},
    }
    if forall|i: int| 0 <= i < diags.len() ==> #[trigger] diags[i] is Some {
        lemma_present_texts_all(diags);
    }
}

/// When a transaction's `resultMetaXdr` is version 3 Soroban metadata, the
/// shaped JSON carries its contract events, when there are any, as
/// `events.contractEventsXdr`, and its return value as `returnValue` unless
/// that value is void; a void return leaves `returnValue` as it was.
pub proof fn law_v3_events_and_return_value_are_injected(
    v: JsonValue,
    meta: Seq<char>,
    evs: Seq<Option<Seq<char>>>,
    diags: Seq<Option<Seq<char>>>,
    rv: Option<Seq<char>>,
    void: bool,
)
    requires
        v is Object,
        str_member(v, "resultMetaXdr"@) == Some(meta),
        transaction_meta_of_base64(meta, XDR_READ_DEPTH) == Some((3u32, Some((evs, diags, rv, void)))),
    ensures
        evs.len() > 0 ==> member_value(with_v3_metadata(v), "events"@) == Some(
            JsonValue::Object(seq![("contractEventsXdr"@, JsonValue::Array(present_texts(evs)))]),
        ),
        !void && rv is Some ==> member_value(with_v3_metadata(v), "returnValue"@) == Some(JsonValue::Str(rv->0)),
        void ==> member_value(with_v3_metadata(v), "returnValue"@) == member_value(v, "returnValue"@),
{
    reveal_strlit("inclusionFee");
    reveal_strlit("resultMetaXdr");
    reveal_strlit("events");
    reveal_strlit("diagnosticEventsXdr");
    reveal_strlit("returnValue");
    let ek = "events"@;
    let dk = "diagnosticEventsXdr"@;
    let rk = "returnValue"@;
    let fk = "inclusionFee"@;
    assert(fk != "resultMetaXdr"@) by { assert(fk.len() != "resultMetaXdr"@.len()); }
    assert(fk != ek) by { assert(fk.len() != ek.len()); }
    assert(fk != rk) by { assert(fk[0] != rk[0]); }
    assert(dk != ek) by { assert(dk.len() != ek.len()); }
    assert(dk != rk) by { assert(dk.len() != rk.len()); }
    assert(ek != rk) by { assert(ek.len() != rk.len()); }
    let v1 = match str_member(v, "resultXdr"@) {
        Some(b) => match transaction_result_from_base64(b) {
            Some((fee, _)) => set_member(v, fk, JsonValue::Number(fee as int)),
            None => v,
        },
        None => v,
    };
    match str_member(v, "resultXdr"@) {
        Some(b) => match transaction_result_from_base64(b) {
            Some((fee, _)) => {
                lemma_set_member_lookup(v, fk, JsonValue::Number(fee as int), "resultMetaXdr"@);
                lemma_set_member_lookup(v, fk, JsonValue::Number(fee as int), rk);
            },
            None => {},
        },
        None => {},
    }
    lemma_str_member_is_value(v, "resultMetaXdr"@);
    lemma_str_member_is_value(v1, "resultMetaXdr"@);
    let evobj = JsonValue::Object(seq![("contractEventsXdr"@, JsonValue::Array(present_texts(evs)))]);
    let v2 = if evs.len() > 0 { set_member(v1, ek, evobj) } else { v1 };
    if evs.len() > 0 {
        lemma_set_member_lookup(v1, ek, evobj, ek);
        lemma_set_member_lookup(v1, ek, evobj, rk);
    }
    let arr = JsonValue::Array(present_texts(diags));
    let v3 = if diags.len() > 0 { set_member(v2, dk, arr) } else { v2 };
    if diags.len() > 0 {
        lemma_set_member_lookup(v2, dk, arr, ek);
        lemma_set_member_lookup(v2, dk, arr, rk);
    }
    match rv {
        Some(s) => if !void {
            lemma_set_member_lookup(v3, rk, JsonValue::Str(s), ek);
            lemma_set_member_lookup(v3, rk, JsonValue::Str(s), rk);
        },
        None => {},
    }
}

/// Injects into a transaction's JSON the fee charged and, for version 3
/// metadata, the Soroban events and return value, so that later stages see
/// the same shape whatever the metadata version.
pub fn parse_v3_metadata(tx_data: &mut Json) -> (r: GratResult<()>)
    ensures
        r is Ok,
        json_view(*final(tx_data)) == with_v3_metadata(json_view(*old(tx_data))),
{
    let result_b64 = match get_str_member(tx_data, "resultXdr") {
        Some(b) => Some(b.clone()),
        None => None,
    };
    match result_b64 {
        Some(b) => match decode_transaction_result(b.as_str()) {
            Some(t) => {
                json_set(tx_data, "inclusionFee", Json::Number(t.fee_charged as i128));
            },
            None => {},
        },
        None => {},
    }
    let meta_b64 = match get_str_member(tx_data, "resultMetaXdr") {
        Some(m) => m.clone(),
        None => {
            return Ok(());
        },
    };
    let meta = match decode_transaction_meta(meta_b64.as_str(), XDR_READ_DEPTH) {
        Some(TransactionMetaParts { version, soroban: Some(sm) }) => {
            if version != 3 {
                return Ok(());
            }
            sm
        },
        _ => {
            return Ok(());
        },
    };
    if meta.events.len() > 0 {
        let items = present_strings(&meta.events);
        let inner = vec![JsonMember { key: String::from_str("contractEventsXdr"), value: Json::Array(items) }];
        proof {
            lemma_members_view_index(inner@);
        }
        let events = Json::Object(inner);
        assert(members_view(inner@) =~= seq![("contractEventsXdr"@, json_view(inner@[0].value))]);
        json_set(tx_data, "events", events);
    }
    if meta.diagnostic_events.len() > 0 {
        let items = present_strings(&meta.diagnostic_events);
        json_set(tx_data, "diagnosticEventsXdr", Json::Array(items));
    }
    if !meta.return_is_void {
        match &meta.return_value {
            Some(rv) => {
                json_set(tx_data, "returnValue", Json::String(rv.clone()));
            },
            None => {},
        }
    }
    Ok(())
}

/// How a fetched transaction's JSON is shaped before its error is
/// classified: its V3 metadata is injected, then its events are narrowed to
/// one operation when an index is given.
pub open spec fn shaped_transaction(v: JsonValue, op_index: Option<usize>) -> JsonValue {
    match op_index {
        Some(i) => filtered_for_operation(with_v3_metadata(v), i as int),
        None => with_v3_metadata(v),
    }
}

/// The part of decoding a transaction between fetching it and resolving a
/// contract-specific error: its JSON is shaped, its error classified, and
/// the report of that error built. A successful transaction has no error.
pub fn classify_and_report(tx_data: &mut Json, op_index: Option<usize>) -> (r: GratResult<(ClassifiedError, DiagnosticReport)>)
    ensures
        json_view(*final(tx_data)) == shaped_transaction(json_view(*old(tx_data)), op_index),
        str_member(json_view(*final(tx_data)), "status"@) == Some("SUCCESS"@) ==> (r matches Err(GratError::Internal(m))
            && m@ == "Transaction succeeded — no error to classify"@),
        str_member(json_view(*final(tx_data)), "status"@) != Some("SUCCESS"@) ==> (r matches Ok((c, report))
            && c.category == ErrorCategory::Contract && c.error_code == 0 && !c.is_contract_error
            && c.contract_id is None && json_view(c.raw_data) == json_view(*final(tx_data))
            && is_report_of(c, report)),
{
    let _ = parse_v3_metadata(tx_data);
    match op_index {
        Some(i) => {
            let _ = filter_transaction_by_operation(tx_data, i);
        },
        None => {},
    }
    let error_info = host_error::classify_error(tx_data)?;
    let report = report::build_report(&error_info);
    Ok((error_info, report))
}

} // verus!
