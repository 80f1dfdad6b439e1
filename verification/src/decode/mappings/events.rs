//! Details of the `Events` category's host error codes: why a contract's
//! event emission was rejected by the host.

use vstd::prelude::*;
use crate::types::report::Severity;

verus! {

/// A developer-friendly description of one `Events` category code.
#[derive(Debug, Clone, Copy, PartialEq, Eq)]
pub struct EventsErrorDetail {
    /// The numeric code.
    pub code: u32,
    /// The canonical name of the code.
    pub name: &'static str,
    /// A short explanation of the failure.
    pub summary: &'static str,
    /// How serious the failure is.
    pub severity: Severity,
}

/// The documented detail of a code, if the code is documented.
pub open spec fn events_error_detail(code: u32) -> Option<EventsErrorDetail> {
    match code {
        0 => Some(EventsErrorDetail {
            code: 0,
            name: "ArithDomain",
            summary: "Event emission failed: an arithmetic overflow occurred while constructing the event payload.",
            severity: Severity::Error,
        }),
        1 => Some(EventsErrorDetail {
            code: 1,
            name: "IndexBounds",
            summary: "Event emission failed: a topic index was out of bounds — the contract referenced a topic slot that does not exist.",
            severity: Severity::Error,
        }),
        2 => Some(EventsErrorDetail {
            code: 2,
            name: "InvalidInput",
            summary: "Event emission failed: the event input is malformed — check that topics and data values are valid host values.",
            severity: Severity::Error,
        }),
        3 => Some(EventsErrorDetail {
            code: 3,
            name: "MissingValue",
            summary: "Event emission failed: a required event field was not provided.",
            severity: Severity::Error,
        }),
        4 => Some(EventsErrorDetail {
            code: 4,
            name: "ExistingValue",
            summary: "Event emission failed: the contract attempted to emit a duplicate event that is not allowed in this context.",
            severity: Severity::Error,
        }),
        5 => Some(EventsErrorDetail {
            code: 5,
            name: "ExceededLimit",
            summary: "Too many topics: the event exceeds the maximum number of topics allowed per event — reduce the number of topics.",
            severity: Severity::Error,
        }),
        6 => Some(EventsErrorDetail {
            code: 6,
            name: "InvalidAction",
            summary: "Event emission failed: the contract attempted to emit an event in an invalid execution context.",
            severity: Severity::Error,
        }),
        7 => Some(EventsErrorDetail {
            code: 7,
            name: "InternalError",
            summary: "Event emission failed: the host encountered an internal error in its event subsystem — this may be a platform bug.",
            severity: Severity::Error,
        }),
        8 => Some(EventsErrorDetail {
            code: 8,
            name: "UnexpectedType",
            summary: "Event emission failed: an event topic or data value has an unexpected type.",
            severity: Severity::Error,
        }),
        9 => Some(EventsErrorDetail {
            code: 9,
            name: "UnexpectedSize",
            summary: "Data payload too large: the event data exceeds the maximum allowed size — reduce the size of the event data.",
            severity: Severity::Error,
        }),
        _ => None,
    }
}

/// Looks up the documented detail of a code.
pub fn lookup(code: u32) -> (r: Option<EventsErrorDetail>)
    ensures
        r == events_error_detail(code),
        r matches Some(d) ==> d.code == code,
        r is Some <==> code < 10,
{
    match code {
        0 => Some(EventsErrorDetail {
            code: 0,
            name: "ArithDomain",
            summary: "Event emission failed: an arithmetic overflow occurred while constructing the event payload.",
            severity: Severity::Error,
        }),
        1 => Some(EventsErrorDetail {
            code: 1,
            name: "IndexBounds",
            summary: "Event emission failed: a topic index was out of bounds — the contract referenced a topic slot that does not exist.",
            severity: Severity::Error,
        }),
        2 => Some(EventsErrorDetail {
            code: 2,
            name: "InvalidInput",
            summary: "Event emission failed: the event input is malformed — check that topics and data values are valid host values.",
            severity: Severity::Error,
        }),
        3 => Some(EventsErrorDetail {
            code: 3,
            name: "MissingValue",
            summary: "Event emission failed: a required event field was not provided.",
            severity: Severity::Error,
        }),
        4 => Some(EventsErrorDetail {
            code: 4,
            name: "ExistingValue",
            summary: "Event emission failed: the contract attempted to emit a duplicate event that is not allowed in this context.",
            severity: Severity::Error,
        }),
        5 => Some(EventsErrorDetail {
            code: 5,
            name: "ExceededLimit",
            summary: "Too many topics: the event exceeds the maximum number of topics allowed per event — reduce the number of topics.",
            severity: Severity::Error,
        }),
        6 => Some(EventsErrorDetail {
            code: 6,
            name: "InvalidAction",
            summary: "Event emission failed: the contract attempted to emit an event in an invalid execution context.",
            severity: Severity::Error,
        }),
        7 => Some(EventsErrorDetail {
            code: 7,
            name: "InternalError",
            summary: "Event emission failed: the host encountered an internal error in its event subsystem — this may be a platform bug.",
            severity: Severity::Error,
        }),
        8 => Some(EventsErrorDetail {
            code: 8,
            name: "UnexpectedType",
            summary: "Event emission failed: an event topic or data value has an unexpected type.",
            severity: Severity::Error,
        }),
        9 => Some(EventsErrorDetail {
            code: 9,
            name: "UnexpectedSize",
            summary: "Data payload too large: the event data exceeds the maximum allowed size — reduce the size of the event data.",
            severity: Severity::Error,
        }),
        _ => None,
    }
}

/// Every documented code, in table order: each entry is the detail of its
/// own code, and no code occurs twice.
pub fn events_error_details() -> (t: Vec<EventsErrorDetail>)
    ensures
        t@.len() == 10,
        forall|i: int| 0 <= i < t@.len() ==> #[trigger] t@[i].code == i,
        forall|i: int| 0 <= i < t@.len() ==> events_error_detail(#[trigger] t@[i].code) == Some(t@[i]),
        forall|i: int, j: int| 0 <= i < j < t@.len() ==> #[trigger] t@[i].code != #[trigger] t@[j].code,
{
    let mut t = Vec::new();
    t.push(lookup(0).unwrap());
    t.push(lookup(1).unwrap());
    t.push(lookup(2).unwrap());
    t.push(lookup(3).unwrap());
    t.push(lookup(4).unwrap());
    t.push(lookup(5).unwrap());
    t.push(lookup(6).unwrap());
    t.push(lookup(7).unwrap());
    t.push(lookup(8).unwrap());
    t.push(lookup(9).unwrap());
    t
}

/// The `Events` category's named codes and their names: each of these codes
/// has the name shown, and no other code is named.
pub proof fn law_events_code_names(c: u32)
    ensures
        events_error_detail(0) matches Some(d) && d.name@ == "ArithDomain"@,
        events_error_detail(1) matches Some(d) && d.name@ == "IndexBounds"@,
        events_error_detail(2) matches Some(d) && d.name@ == "InvalidInput"@,
        events_error_detail(3) matches Some(d) && d.name@ == "MissingValue"@,
        events_error_detail(4) matches Some(d) && d.name@ == "ExistingValue"@,
        events_error_detail(5) matches Some(d) && d.name@ == "ExceededLimit"@,
        events_error_detail(6) matches Some(d) && d.name@ == "InvalidAction"@,
        events_error_detail(7) matches Some(d) && d.name@ == "InternalError"@,
        events_error_detail(8) matches Some(d) && d.name@ == "UnexpectedType"@,
        events_error_detail(9) matches Some(d) && d.name@ == "UnexpectedSize"@,
        events_error_detail(c) is Some <==> (c == 0 || c == 1 || c == 2 || c == 3 || c == 4 || c == 5 || c == 6 || c == 7 || c == 8 || c == 9),
{
}

} // verus!
