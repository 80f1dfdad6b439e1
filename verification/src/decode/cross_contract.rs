//! Attribution of a failure to the contract and function where it
//! originated, by replaying the call boundaries that diagnostic events mark.

use vstd::prelude::*;
use crate::text::{
    decimal_digits, hex_bytes, push_decimal_i128, push_decimal_u128, push_hex, signed_decimal,
    str_equals, xdr_string_to_string, xdr_text,
};
use crate::decode::diagnostic::{diagnostic_event_strings, diagnostic_event_texts};
use crate::error::GratResult;
use crate::json::{json_view, Json};
use crate::types::report::{DiagnosticReport, FailureAttribution};
use crate::xdr::{scval_model, XDR_READ_DEPTH, ContractEventType, DiagnosticEvent, ScValue};
use stellar_xdr::curr as sx;
use stellar_xdr::curr::ReadXdr;

verus! {

/// One frame of the replayed call stack.
#[derive(Debug)]
pub struct CallFrame {
    pub contract_address: String,
    pub function_name: Option<String>,
    pub depth: usize,
}

/// The view of a frame: contract address, function name, depth.
pub type FrameView = (Seq<char>, Option<Seq<char>>, int);

/// The view of an optional string.
pub open spec fn opt_view(s: Option<String>) -> Option<Seq<char>> {
    match s {
        Some(t) => Some(t@),
        None => None,
    }
}

/// The view of a frame.
pub open spec fn frame_view(f: CallFrame) -> FrameView {
    (f.contract_address@, opt_view(f.function_name), f.depth as int)
}

/// The views of a stack of frames, bottom first.
pub open spec fn stack_view(s: Seq<CallFrame>) -> Seq<FrameView> {
    s.map_values(|f: CallFrame| frame_view(f))
}

/// The text of a topic, for the topics that have one.
pub open spec fn topic_text(v: ScValue) -> Option<Seq<char>> {
    match v {
        ScValue::Symbol(b) => Some(xdr_text(b@)),
        ScValue::String(b) => Some(xdr_text(b@)),
        ScValue::U32(u) => Some(decimal_digits(u as nat)),
        ScValue::I32(i) => Some(signed_decimal(i as int)),
        _ => None,
    }
}

/// The texts of the topics that have one, in order.
pub open spec fn topic_texts(topics: Seq<ScValue>) -> Seq<Seq<char>>
    decreases topics.len(),
{
    if topics.len() == 0 {
        Seq::empty()
    } else {
        let rest = topic_texts(topics.drop_last());
        match topic_text(topics.last()) {
            Some(t) => rest.push(t),
            None => rest,
        }
    }
}

/// The `i`-th topic text, if there is one.
pub open spec fn nth_text(texts: Seq<Seq<char>>, i: int) -> Option<Seq<char>> {
    if 0 <= i < texts.len() {
        Some(texts[i])
    } else {
        None
    }
}

/// The frame a failure is attributed to: the innermost open call, or, with
/// no open call, the emitting contract at depth 0 of an empty stack.
pub open spec fn failing_frame(stack: Seq<FrameView>, addr: Seq<char>, func: Option<Seq<char>>) -> FrameView {
    if stack.len() > 0 {
        stack.last()
    } else {
        (addr, func, stack.len() as int)
    }
}

/// The call stack and first failure after one diagnostic event.
pub open spec fn after_event(
    ev: DiagnosticEvent,
    stack: Seq<FrameView>,
    failure: Option<FrameView>,
) -> (Seq<FrameView>, Option<FrameView>) {
    match ev.contract_id {
        None => (stack, failure),
        Some(hash) => {
            let addr = hex_bytes(hash@);
            let texts = topic_texts(ev.topics@);
            let first = if texts.len() > 0 { texts[0] } else { Seq::empty() };
            if first == "fn_call"@ {
                (stack.push((addr, nth_text(texts, 1), stack.len() as int)), failure)
            } else if first == "fn_return"@ {
                (if stack.len() > 0 { stack.drop_last() } else { stack }, failure)
            } else if first == "error"@ || first == "panic"@ {
                let frame = failing_frame(stack, addr, nth_text(texts, 1));
                (stack, if failure is None { Some(frame) } else { failure })
            } else if ev.event_type == ContractEventType::System && !ev.in_successful_contract_call {
                let frame = failing_frame(stack, addr, nth_text(texts, 0));
                (stack, if failure is None { Some(frame) } else { failure })
            } else {
                (stack, failure)
            }
        },
    }
}

/// The call stack and first failure after a sequence of events.
pub open spec fn after_events(
    evs: Seq<DiagnosticEvent>,
    stack: Seq<FrameView>,
    failure: Option<FrameView>,
) -> (Seq<FrameView>, Option<FrameView>)
    decreases evs.len(),
{
    if evs.len() == 0 {
        (stack, failure)
    } else {
        let (s, f) = after_events(evs.drop_last(), stack, failure);
        after_event(evs.last(), s, f)
    }
}

/// Each frame of a stack sits at the depth that is its position.
pub open spec fn depths_match_positions(stack: Seq<FrameView>) -> bool {
    forall|i: int| 0 <= i < stack.len() ==> #[trigger] stack[i].2 == i
}

/// Once a failure has been recorded, no later event replaces it.
pub proof fn law_first_failure_is_kept(
    evs: Seq<DiagnosticEvent>,
    stack: Seq<FrameView>,
    failure: FrameView,
)
    ensures
        after_events(evs, stack, Some(failure)).1 == Some(failure),
    decreases evs.len(),
{
    if evs.len() > 0 {
        law_first_failure_is_kept(evs.drop_last(), stack, failure);
    }
}

/// Replaying events keeps every open frame at the depth that is its position
/// in the call stack.
pub proof fn law_frame_depth_is_position(
    evs: Seq<DiagnosticEvent>,
    stack: Seq<FrameView>,
    failure: Option<FrameView>,
)
    requires
        depths_match_positions(stack),
    ensures
        depths_match_positions(after_events(evs, stack, failure).0),
    decreases evs.len(),
{
    if evs.len() > 0 {
        law_frame_depth_is_position(evs.drop_last(), stack, failure);
        let (s, f) = after_events(evs.drop_last(), stack, failure);
        let next = after_event(evs.last(), s, f).0;
        assert forall|i: int| 0 <= i < next.len() implies #[trigger] next[i].2 == i by {
            if i < s.len() {
                assert(s[i].2 == i);
            }
        }
    }
}

/// A contract's diagnostic event whose first topic text is `panic` or
/// `error` marks a failure. It leaves the call stack as it is; when no
/// failure is recorded yet, the innermost open call becomes the failure, or,
/// with no open call, the emitting contract at depth 0 with the event's
/// second topic as its function; an earlier failure stays.
pub proof fn law_panic_and_error_record_the_failure(
    ev: DiagnosticEvent,
    stack: Seq<FrameView>,
    hash: [u8; 32],
    earlier: FrameView,
)
    requires
        ev.contract_id == Some(hash),
        topic_texts(ev.topics@).len() > 0,
        topic_texts(ev.topics@)[0] == "panic"@ || topic_texts(ev.topics@)[0] == "error"@,
    ensures
        after_event(ev, stack, None).0 == stack,
        stack.len() > 0 ==> after_event(ev, stack, None).1 == Some(stack[stack.len() - 1]),
        stack.len() == 0 ==> after_event(ev, stack, None).1 == Some(
            (hex_bytes(hash@), nth_text(topic_texts(ev.topics@), 1), 0int),
        ),
        after_event(ev, stack, Some(earlier)) == (stack, Some(earlier)),
{
    reveal_strlit("panic");
    reveal_strlit("error");
    reveal_strlit("fn_call");
    reveal_strlit("fn_return");
    let first = topic_texts(ev.topics@)[0];
    assert(first.len() == 5);
    assert(first != "fn_call"@);
    assert(first != "fn_return"@);
}

/// Call boundaries: a contract's `fn_call` event opens a frame for that
/// contract, named by the event's second topic, one level deeper than the
/// innermost open call; its `fn_return` event closes the innermost open
/// call; neither changes the recorded failure. An event from no contract
/// changes nothing.
pub proof fn law_call_boundaries(
    ev: DiagnosticEvent,
    stack: Seq<FrameView>,
    failure: Option<FrameView>,
    hash: [u8; 32],
)
    ensures
        ev.contract_id is None ==> after_event(ev, stack, failure) == (stack, failure),
        ev.contract_id == Some(hash) && topic_texts(ev.topics@).len() > 0 && topic_texts(ev.topics@)[0]
            == "fn_call"@ ==> after_event(ev, stack, failure) == (
            stack.push((hex_bytes(hash@), nth_text(topic_texts(ev.topics@), 1), stack.len() as int)),
            failure,
        ),
        ev.contract_id == Some(hash) && topic_texts(ev.topics@).len() > 0 && topic_texts(ev.topics@)[0]
            == "fn_return"@ && stack.len() > 0 ==> after_event(ev, stack, failure) == (
            stack.subrange(0, stack.len() - 1),
            failure,
        ),
{
    reveal_strlit("fn_call");
    reveal_strlit("fn_return");
    assert("fn_return"@ != "fn_call"@) by {
        assert("fn_return"@.len() != "fn_call"@.len());
    }
}

/// A failed system event from a contract (one outside a successful
/// contract call, and whose first topic is none of `fn_call`, `fn_return`,
/// `error` and `panic`) marks a failure: with none recorded yet, the
/// innermost open call, or with no open call the emitting contract named by
/// the event's first topic, becomes the failure. A failed event of another
/// type, or a system event in a successful call, with such a topic marks none.
pub proof fn law_failed_system_events_record_the_failure(
    ev: DiagnosticEvent,
    stack: Seq<FrameView>,
    hash: [u8; 32],
)
    requires
        ev.contract_id == Some(hash),
        topic_texts(ev.topics@).len() == 0 || (topic_texts(ev.topics@)[0] != "fn_call"@
            && topic_texts(ev.topics@)[0] != "fn_return"@ && topic_texts(ev.topics@)[0] != "error"@
            && topic_texts(ev.topics@)[0] != "panic"@),
    ensures
        after_event(ev, stack, None).0 == stack,
        ev.event_type == ContractEventType::System && !ev.in_successful_contract_call && stack.len() > 0
            ==> after_event(ev, stack, None).1 == Some(stack[stack.len() - 1]),
        ev.event_type == ContractEventType::System && !ev.in_successful_contract_call && stack.len() == 0
            ==> after_event(ev, stack, None).1 == Some(
            (hex_bytes(hash@), nth_text(topic_texts(ev.topics@), 0), 0int),
        ),
        !(ev.event_type == ContractEventType::System && !ev.in_successful_contract_call) ==> after_event(
            ev,
            stack,
            None,
        ).1 is None,
{
    reveal_strlit("fn_call");
    reveal_strlit("fn_return");
    reveal_strlit("error");
    reveal_strlit("panic");
    if topic_texts(ev.topics@).len() == 0 {
        assert(Seq::<char>::empty() != "fn_call"@) by {
            assert("fn_call"@.len() == 7);
        }
        assert(Seq::<char>::empty() != "fn_return"@) by {
            assert("fn_return"@.len() == 9);
        }
        assert(Seq::<char>::empty() != "error"@) by {
            assert("error"@.len() == 5);
        }
        assert(Seq::<char>::empty() != "panic"@) by {
            assert("panic"@.len() == 5);
        }
    }
}

/// The text of a frame's description.
pub open spec fn description_of(f: FrameView) -> Seq<char> {
    match f.1 {
        Some(name) => "Failure originated in contract "@ + f.0 + " at function `"@ + name
            + "` (call depth "@ + decimal_digits(f.2 as nat) + ")"@,
        None => "Failure originated in contract "@ + f.0 + " (call depth "@ + decimal_digits(
            f.2 as nat,
        ) + ")"@,
    }
}

/// Lowercase hex of a 32-byte hash, without prefix.
fn hash_to_string(hash: &[u8; 32]) -> (s: String)
    ensures
        s@ == hex_bytes(hash@),
{
    bytes_to_hex(hash)
}

/// Lowercase hex of bytes, two characters per byte, without prefix.
pub fn bytes_to_hex(bytes: &[u8]) -> (s: String)
    ensures
        s@ == hex_bytes(bytes@),
{
    let mut out = String::new();
    push_hex(&mut out, bytes);
    assert(out@ =~= hex_bytes(bytes@));
    out
}

/// The text of a topic value, for symbols, strings and 32-bit integers.
fn scval_to_string(val: &ScValue) -> (r: Option<String>)
    ensures
        opt_view(r) == topic_text(*val),
{
    match val {
        ScValue::Symbol(sym) => Some(xdr_string_to_string(sym.as_slice())),
        ScValue::String(s) => Some(xdr_string_to_string(s.as_slice())),
        ScValue::U32(u) => {
            let mut out = String::new();
            push_decimal_u128(&mut out, *u as u128);
            assert(out@ =~= decimal_digits(*u as nat));
            Some(out)
        },
        ScValue::I32(i) => {
            let mut out = String::new();
            push_decimal_i128(&mut out, *i as i128);
            assert(out@ =~= signed_decimal(*i as int));
            Some(out)
        },
        _ => None,
    }
}

fn clone_opt_string(s: &Option<String>) -> (r: Option<String>)
    ensures
        opt_view(r) == opt_view(*s),
{
    match s {
        Some(t) => Some(t.clone()),
        None => None,
    }
}

fn clone_frame(f: &CallFrame) -> (r: CallFrame)
    ensures
        frame_view(r) == frame_view(*f),
{
    CallFrame {
        contract_address: f.contract_address.clone(),
        function_name: clone_opt_string(&f.function_name),
        depth: f.depth,
    }
}

fn nth_topic(texts: &Vec<String>, i: usize) -> (r: Option<String>)
    ensures
        opt_view(r) == nth_text(texts@.map_values(|t: String| t@), i as int),
{
    if i < texts.len() {
        Some(texts[i].clone())
    } else {
        None
    }
}

/// The frame that a failure is attributed to.
fn failing_frame_of(stack: &Vec<CallFrame>, addr: String, func: Option<String>) -> (r: CallFrame)
    ensures
        frame_view(r) == failing_frame(stack_view(stack@), addr@, opt_view(func)),
{
    if stack.len() > 0 {
        clone_frame(&stack[stack.len() - 1])
    } else {
        CallFrame { contract_address: addr, function_name: func, depth: stack.len() }
    }
}

/// Replays one diagnostic event against the call stack: `fn_call` opens a
/// frame, `fn_return` closes one, and the first `error`/`panic` topic, or
/// failed system event, records the failing frame.
pub fn process_event(event: &DiagnosticEvent, call_stack: &mut Vec<CallFrame>, failure: &mut Option<CallFrame>)
    requires
        old(call_stack)@.len() < usize::MAX,
    ensures
        final(call_stack)@.len() <= old(call_stack)@.len() + 1,
        (stack_view(final(call_stack)@), match *final(failure) {
            Some(f) => Some(frame_view(f)),
            None => None,
        }) == after_event(*event, stack_view(old(call_stack)@), match *old(failure) {
            Some(f) => Some(frame_view(f)),
            None => None,
        }),
{
    let hash = match &event.contract_id {
        Some(h) => h,
        None => return,
    };
    let contract_address = hash_to_string(hash);
    let mut texts: Vec<String> = Vec::new();
    let mut i: usize = 0;
    while i < event.topics.len()
        invariant
            i <= event.topics@.len(),
            texts@.map_values(|t: String| t@) == topic_texts(event.topics@.take(i as int)),
        decreases event.topics@.len() - i,
    {
        let t = scval_to_string(&event.topics[i]);
        proof {
            assert(event.topics@.take(i + 1).drop_last() =~= event.topics@.take(i as int));
            assert(event.topics@.take(i + 1).last() == event.topics@[i as int]);
        }
        match t {
            Some(text) => {
                let ghost before = texts@;
                texts.push(text);
                assert(texts@.map_values(|t: String| t@) =~= before.map_values(|t: String| t@).push(text@));
            },
            None => {},
        }
        i = i + 1;
    }
    assert(event.topics@.take(i as int) =~= event.topics@);
    let ghost tv = texts@.map_values(|t: String| t@);
    let ghost old_stack = stack_view(call_stack@);
    let empty = String::new();
    let first: &str = if texts.len() > 0 { texts[0].as_str() } else { empty.as_str() };
    assert(first@ == if tv.len() > 0 { tv[0] } else { Seq::<char>::empty() });
    if str_equals(first, "fn_call") {
        let function_name = nth_topic(&texts, 1);
        let depth = call_stack.len();
        call_stack.push(CallFrame { contract_address, function_name, depth });
        assert(stack_view(call_stack@) =~= old_stack.push((hex_bytes(hash@), nth_text(tv, 1), depth as int)));
    } else if str_equals(first, "fn_return") {
        call_stack.pop();
        assert(stack_view(call_stack@) =~= if old_stack.len() > 0 { old_stack.drop_last() } else { old_stack });
    } else if str_equals(first, "error") || str_equals(first, "panic") {
        let frame = failing_frame_of(call_stack, contract_address, nth_topic(&texts, 1));
        if failure.is_none() {
            *failure = Some(frame);
        }
    } else if matches!(event.event_type, ContractEventType::System) && !event.in_successful_contract_call {
        let frame = failing_frame_of(call_stack, contract_address, nth_topic(&texts, 0));
        if failure.is_none() {
            *failure = Some(frame);
        }
    }
}

/// Describes where a failure originated.
pub fn build_description(frame: &CallFrame) -> (s: String)
    ensures
        s@ == description_of(frame_view(*frame)),
{
    let mut out = String::new();
    out.append("Failure originated in contract ");
    out.append(frame.contract_address.as_str());
    match &frame.function_name {
        Some(fn_name) => {
            out.append(" at function `");
            out.append(fn_name.as_str());
            out.append("` (call depth ");
        },
        None => {
            out.append(" (call depth ");
        },
    }
    push_decimal_u128(&mut out, frame.depth as u128);
    out.append(")");
    assert(out@ =~= description_of(frame_view(*frame)));
    out
}

/// The attribution of the first failure among `events`, replayed from an
/// empty call stack, when that failure happened inside a nested call.
pub open spec fn attribution_of(events: Seq<DiagnosticEvent>) -> Option<(Seq<char>, Option<Seq<char>>, int, Seq<char>)> {
    match after_events(events, Seq::empty(), None).1 {
        Some(f) => if f.2 > 0 {
            Some((f.0, f.1, f.2, description_of(f)))
        } else {
            None
        },
        None => None,
    }
}

/// Replays decoded diagnostic events and attributes the first failure to the
/// contract and function where it originated. A failure at the top level
/// (call depth 0) gets no attribution.
pub fn attribution_for_events(events: &Vec<DiagnosticEvent>) -> (r: Option<FailureAttribution>)
    ensures
        attribution_matches(r, attribution_of(events@)),
{
    let mut call_stack: Vec<CallFrame> = Vec::new();
    let mut failure: Option<CallFrame> = None;
    let mut i: usize = 0;
    while i < events.len()
        invariant
            i <= events@.len(),
            call_stack@.len() <= i,
            (stack_view(call_stack@), match failure {
                Some(f) => Some(frame_view(f)),
                None => None,
            }) == after_events(events@.take(i as int), Seq::empty(), None),
        decreases events@.len() - i,
    {
        proof {
            assert(events@.take(i + 1).drop_last() =~= events@.take(i as int));
            assert(events@.take(i + 1).last() == events@[i as int]);
        }
        process_event(&events[i], &mut call_stack, &mut failure);
        i = i + 1;
    }
    assert(events@.take(i as int) =~= events@);
    attribution_of_failure(failure)
}

/// Whether an attribution is the one described by `e`.
pub open spec fn attribution_matches(
    r: Option<FailureAttribution>,
    e: Option<(Seq<char>, Option<Seq<char>>, int, Seq<char>)>,
) -> bool {
    match (r, e) {
        (Some(a), Some(e)) => a.contract_address@ == e.0 && opt_view(a.function_name) == e.1
            && a.call_depth == e.2 && a.origin_description@ == e.3,
        (None, None) => true,
        _ => false,
    }
}

/// The attribution of a recorded failure: none at the top level.
fn attribution_of_failure(failure: Option<CallFrame>) -> (r: Option<FailureAttribution>)
    ensures
        attribution_matches(r, match failure {
            Some(f) => if f.depth > 0 {
                Some((f.contract_address@, opt_view(f.function_name), f.depth as int, description_of(frame_view(f))))
            } else {
                None
            },
            None => None,
        }),
{
    match failure {
        Some(frame) => {
            if frame.depth > 0 {
                let origin_description = build_description(&frame);
                Some(FailureAttribution {
                    origin_description,
                    contract_address: frame.contract_address,
                    function_name: frame.function_name,
                    call_depth: frame.depth,
                })
            } else {
                None
            }
        },
        None => None,
    }
}

/// What `stellar_xdr` makes of base64 text read as a `DiagnosticEvent`
/// with nesting limited to `depth`: the event in the library's model, or
/// none when the text does not read as one.
pub uninterp spec fn diagnostic_event_from_base64(b64: Seq<char>, depth: u32) -> Option<DiagnosticEvent>;

/// Reads a diagnostic event from base64 XDR with `stellar_xdr`'s
/// `ReadXdr::from_xdr_base64` (nesting limited to `depth`, no length
/// limit; input nested deeper does not read) and takes it into the model:
/// whether it was emitted in a successful call, the emitting contract, the
/// event type and the topics. The claim: the outcome is
/// `diagnostic_event_from_base64(b64, depth)`, a function of the text and
/// the limit.
#[verifier::external_body]
fn read_diagnostic_event(b64: &str, depth: u32) -> (r: Option<DiagnosticEvent>)
    ensures
        r == diagnostic_event_from_base64(b64@, depth),
{
    let e = sx::DiagnosticEvent::from_xdr_base64(b64, sx::Limits::depth(depth)).ok()?;
    let sx::ContractEventBody::V0(body) = &e.event.body;
    Some(DiagnosticEvent {
        in_successful_contract_call: e.in_successful_contract_call,
        contract_id: e.event.contract_id.as_ref().map(|h| h.0),
        event_type: match e.event.type_ {
            sx::ContractEventType::System => ContractEventType::System,
            sx::ContractEventType::Contract => ContractEventType::Contract,
            sx::ContractEventType::Diagnostic => ContractEventType::Diagnostic,
        },
        topics: body.topics.iter().map(scval_model).collect(),
    })
}

/// The events that base64 texts read as, in order; texts that do not read
/// as an event are skipped.
pub open spec fn decoded_events(texts: Seq<Seq<char>>) -> Seq<DiagnosticEvent>
    decreases texts.len(),
{
    if texts.len() == 0 {
        Seq::empty()
    } else {
        let rest = decoded_events(texts.drop_last());
        match diagnostic_event_from_base64(texts.last(), XDR_READ_DEPTH) {
            Some(e) => rest.push(e),
            None => rest,
        }
    }
}

/// A report with its attribution replaced.
pub open spec fn with_attribution(r: DiagnosticReport, a: Option<FailureAttribution>) -> DiagnosticReport {
    DiagnosticReport { cross_contract_attribution: a, ..r }
}

/// Attributes a transaction's failure to the contract and function where
/// it originated, from the diagnostic events listed as base64 XDR under the
/// transaction's `diagnosticEventsXdr`: items that are not strings or do not
/// decode are skipped, the others are replayed in order, and a failure
/// inside a nested call is recorded in the report. Otherwise the report is
/// left as it was.
pub fn attribute_failure(report: &mut DiagnosticReport, tx_data: &Json) -> (r: GratResult<()>)
    ensures
        r is Ok,
        match attribution_of(decoded_events(diagnostic_event_texts(json_view(*tx_data)))) {
            Some(e) => exists|a: FailureAttribution| #![auto]
                attribution_matches(Some(a), Some(e)) && *final(report) == with_attribution(*old(report), Some(a)),
            None => *final(report) == *old(report),
        },
{
    let texts = diagnostic_event_strings(tx_data);
    let ghost tv = texts@.map_values(|t: String| t@);
    let mut call_stack: Vec<CallFrame> = Vec::new();
    let mut failure: Option<CallFrame> = None;
    let mut i: usize = 0;
    while i < texts.len()
        invariant
            i <= texts@.len(),
            tv == texts@.map_values(|t: String| t@),
            call_stack@.len() <= i,
            (stack_view(call_stack@), match failure {
                Some(f) => Some(frame_view(f)),
                None => None,
            }) == after_events(decoded_events(tv.take(i as int)), Seq::empty(), None),
        decreases texts@.len() - i,
    {
        proof {
            assert(tv.take(i + 1).drop_last() =~= tv.take(i as int));
            assert(tv.take(i + 1).last() == texts@[i as int]@);
        }
        match read_diagnostic_event(texts[i].as_str(), XDR_READ_DEPTH) {
            Some(event) => {
                proof {
                    let d = decoded_events(tv.take(i as int));
                    assert(decoded_events(tv.take(i + 1)).drop_last() =~= d);
                }
                process_event(&event, &mut call_stack, &mut failure);
            },
            None => {},
        }
        i = i + 1;
    }
    assert(tv.take(i as int) =~= tv);
    match attribution_of_failure(failure) {
        Some(a) => {
            report.cross_contract_attribution = Some(a);
        },
        None => {},
    }
    Ok(())
}

} // verus!
