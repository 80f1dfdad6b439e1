//! Enrichment of a report from the transaction's diagnostic events.

use vstd::prelude::*;
use crate::decode::cross_contract::{attribution_for_events, attribution_matches, attribution_of, with_attribution};
use crate::error::GratResult;
use crate::json::{get_str_member, json_seq_view, json_view, member_position, Json, JsonValue};
use crate::text::str_equals;
use crate::types::report::{DiagnosticReport, FailureAttribution};
use crate::xdr::DiagnosticEvent;

verus! {

/// Looks at a budget event. Nothing is drawn from it yet.
fn analyze_budget_event(report: &mut DiagnosticReport, event: &Json)
    ensures
        *final(report) == *old(report),
{
}

/// Looks at a storage event. Nothing is drawn from it yet.
fn analyze_storage_event(report: &mut DiagnosticReport, event: &Json)
    ensures
        *final(report) == *old(report),
{
}

/// Looks at an auth event. Nothing is drawn from it yet.
fn analyze_auth_event(report: &mut DiagnosticReport, event: &Json)
    ensures
        *final(report) == *old(report),
{
}

/// Enriches a report from the transaction's `diagnosticEvents`: each event
/// is dispatched by its `type` to the analysis of budget, storage or auth
/// events. None of these analyses draws anything from its event yet, so the
/// report is left as it was.
pub fn enrich_report(report: &mut DiagnosticReport, tx_data: &Json) -> (r: GratResult<()>)
    ensures
        r is Ok,
        *final(report) == *old(report),
{
    if let Json::Object(members) = tx_data {
        if let Some(p) = crate::json::find_member(members, "diagnosticEvents") {
            if let Json::Array(events) = &members[p].value {
                let ghost start = *report;
                let mut i: usize = 0;
                while i < events.len()
                    invariant
                        i <= events@.len(),
                        *report == start,
                    decreases events@.len() - i,
                {
                    let event = &events[i];
                    match get_str_member(event, "type") {
                        Some(t) => {
                            if str_equals(t.as_str(), "budget") {
                                analyze_budget_event(report, event);
                            } else if str_equals(t.as_str(), "storage") {
                                analyze_storage_event(report, event);
                            } else if str_equals(t.as_str(), "auth") {
                                analyze_auth_event(report, event);
                            }
                        },
                        None => {},
                    }
                    i = i + 1;
                }
            }
        }
    }
    Ok(())
}

/// The base64 XDR diagnostic events of a transaction's JSON: the strings
/// of its `diagnosticEventsXdr` array, in order; none when there is no such
/// array.
pub open spec fn diagnostic_event_texts(v: JsonValue) -> Seq<Seq<char>> {
    match v {
        JsonValue::Object(m) => {
            let p = member_position(m, "diagnosticEventsXdr"@);
            if p >= 0 {
                match m[p].1 {
                    JsonValue::Array(items) => string_items(items),
                    _ => Seq::empty(),
                }
            } else {
                Seq::empty()
            }
        },
        _ => Seq::empty(),
    }
}

/// The string items of an array, in order.
pub open spec fn string_items(items: Seq<JsonValue>) -> Seq<Seq<char>>
    decreases items.len(),
{
    if items.len() == 0 {
        Seq::empty()
    } else {
        let rest = string_items(items.drop_last());
        match items.last() {
            JsonValue::Str(s) => rest.push(s),
            _ => rest,
        }
    }
}

/// The base64 XDR diagnostic events listed in a transaction's JSON.
pub fn diagnostic_event_strings(tx_data: &Json) -> (r: Vec<String>)
    ensures
        r@.map_values(|s: String| s@) == diagnostic_event_texts(json_view(*tx_data)),
{
    let mut out: Vec<String> = Vec::new();
    if let Json::Object(members) = tx_data {
        let pos = crate::json::find_member(members, "diagnosticEventsXdr");
        proof {
            crate::json::lemma_members_view_index(members@);
        }
        if let Some(p) = pos {
            if let Json::Array(items) = &members[p].value {
                proof {
                    crate::json::lemma_json_seq_view_index(items@);
                }
                let ghost iv = json_seq_view(items@);
                let mut i: usize = 0;
                while i < items.len()
                    invariant
                        i <= items@.len(),
                        iv == json_seq_view(items@),
                        iv.len() == items@.len(),
                        forall|k: int| 0 <= k < items@.len() ==> #[trigger] iv[k] == json_view(items@[k]),
                        out@.map_values(|s: String| s@) == string_items(iv.take(i as int)),
                    decreases items@.len() - i,
                {
                    proof {
                        assert(iv.take(i + 1).drop_last() =~= iv.take(i as int));
                    }
                    match &items[i] {
                        Json::String(s) => {
                            let ghost prev = out@;
                            out.push(s.clone());
                            assert(out@.map_values(|s: String| s@) =~= prev.map_values(|s: String| s@).push(s@));
                        },
                        _ => {},
                    }
                    i = i + 1;
                }
                assert(iv.take(i as int) =~= iv);
                return out;
            }
        }
    }
    assert(out@.map_values(|s: String| s@) =~= Seq::<Seq<char>>::empty());
    out
}

/// Records in a report where its failure originated, from the decoded
/// diagnostic events: the report gets an attribution when the first failure
/// happened inside a nested call, and is left as it was otherwise.
pub fn record_attribution(report: &mut DiagnosticReport, events: &Vec<DiagnosticEvent>) -> (r: GratResult<()>)
    ensures
        r is Ok,
        match attribution_of(events@) {
            Some(e) => exists|a: FailureAttribution| #![auto]
                attribution_matches(Some(a), Some(e)) && *final(report) == with_attribution(*old(report), Some(a)),
            None => *final(report) == *old(report),
        },
{
    match attribution_for_events(events) {
        Some(a) => {
            report.cross_contract_attribution = Some(a);
        },
        None => {},
    }
    Ok(())
}

} // verus!
