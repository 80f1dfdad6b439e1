//! JSON-RPC 2.0 envelopes, method parameters, and the retry decisions of the
//! plain JSON-RPC transport.

use vstd::prelude::*;
use crate::error::{GratError, GratResult, JsonRpcError};
use crate::json::Json;
use crate::rpc::client::{pow2, rpc_error_message, rpc_error_text, StepKind};

verus! {

/// JSON-RPC 2.0 request envelope, with the method's parameters.
#[derive(Debug)]
pub struct JsonRpcRequest<T> {
    pub jsonrpc: &'static str,
    pub id: u64,
    pub method: &'static str,
    pub params: T,
}

impl<T> JsonRpcRequest<T> {
    /// A request with the standard `"2.0"` version string.
    pub fn new(id: u64, method: &'static str, params: T) -> (r: Self)
        ensures
            r.jsonrpc@ == "2.0"@,
            r.id == id,
            r.method == method,
            r.params == params,
    {
        JsonRpcRequest { jsonrpc: "2.0", id, method, params }
    }
}

/// JSON-RPC 2.0 response envelope.
#[derive(Debug)]
pub struct JsonRpcResponse<T> {
    pub jsonrpc: String,
    pub id: u64,
    pub result: Option<T>,
    pub error: Option<JsonRpcError>,
}

/// Params for `getTransaction`.
#[derive(Debug)]
pub struct GetTransactionParams {
    pub hash: String,
}

/// Params for `simulateTransaction`.
#[derive(Debug)]
pub struct SimulateTransactionParams {
    pub transaction: String,
}

/// Params for `getLedgerEntries`.
#[derive(Debug)]
pub struct GetLedgerEntriesParams {
    pub keys: Vec<String>,
}

/// Params for `getEvents`.
#[derive(Debug)]
pub struct GetEventsParams {
    pub start_ledger: u32,
    pub filters: Json,
}

/// Params for `getLatestLedger`, which takes no parameters.
#[derive(Debug)]
pub struct EmptyParams {}

/// The delay of the plain transport before attempt `attempt`: 100 ms doubled
/// once per attempt, without a cap.
pub open spec fn transport_backoff_ms(attempt: nat) -> int {
    (100 * pow2(attempt)) as int
}

/// The plain transport's delay before attempt `attempt`, in milliseconds.
pub fn transport_backoff_millis(attempt: u32) -> (ms: u64)
    requires
        transport_backoff_ms(attempt as nat) <= u64::MAX,
    ensures
        ms == transport_backoff_ms(attempt as nat),
{
    let mut ms: u64 = 100;
    let mut i: u32 = 0;
    while i < attempt
        invariant
            i <= attempt,
            ms == 100 * pow2(i as nat),
            transport_backoff_ms(attempt as nat) <= u64::MAX,
        decreases attempt - i,
    {
        proof {
            crate::rpc::client::lemma_pow2_monotone((i + 1) as nat, attempt as nat);
        }
        ms = ms * 2;
        i = i + 1;
    }
    ms
}

/// How far a call of the plain transport has come.
pub struct TransportState {
    pub attempt: u32,
    pub max_retries: u32,
    pub last_error: Option<GratError>,
}

/// What happened to the request of the attempt in flight. The plain
/// transport reads the body of every response before it looks at the status.
pub enum TransportEvent<T> {
    /// The call starts.
    Begin,
    /// The request failed; the transport's message.
    SendFailed(String),
    /// The body of the response could not be read; the transport's message.
    BodyReadFailed(String),
    /// A response with this status, its body parsed as an envelope or not.
    Body { status: u16, parsed: Result<JsonRpcResponse<T>, String> },
}

/// What the plain transport does next.
pub enum TransportAction<T> {
    /// Wait, then send attempt `attempt`.
    Send { attempt: u32, delay_ms: u64 },
    /// The call is over.
    Finish(GratResult<T>),
}

/// The shape of a transport action.
pub open spec fn transport_action_kind<T>(a: TransportAction<T>) -> StepKind {
    match a {
        TransportAction::Send { attempt, delay_ms } => StepKind::Send(attempt, delay_ms as int),
        TransportAction::Finish(_) => StepKind::Finish,
    }
}

/// Whether an event is retried by the plain transport: a failed request or
/// a rate limit (429).
pub open spec fn transport_retryable<T>(event: TransportEvent<T>) -> bool {
    match event {
        TransportEvent::SendFailed(_) => true,
        TransportEvent::Body { status, .. } => status == 429,
        _ => false,
    }
}

/// The shape of the transport's decision on `event`.
pub open spec fn transport_kind<T>(attempt: u32, max_retries: u32, event: TransportEvent<T>) -> StepKind {
    if event is Begin {
        StepKind::Send(0, 0)
    } else if transport_retryable(event) {
        if attempt < max_retries {
            StepKind::Send((attempt + 1) as u32, transport_backoff_ms((attempt + 1) as nat))
        } else {
            StepKind::Finish
        }
    } else {
        StepKind::Finish
    }
}

/// The message of a retried failure of the plain transport.
pub open spec fn transport_retry_text<T>(event: TransportEvent<T>) -> Seq<char> {
    match event {
        TransportEvent::SendFailed(e) => "request failed: "@ + e@,
        _ => "rate limited"@,
    }
}

/// The result of a response that is not retried.
pub open spec fn transport_result<T>(parsed: Result<JsonRpcResponse<T>, String>, r: GratResult<T>) -> bool {
    match parsed {
        Err(e) => rpc_error_text(r) == Some("response parse error: "@ + e@),
        Ok(env) => match env.error {
            Some(err) => r == Err::<T, GratError>(GratError::JsonRpc(err)),
            None => match env.result {
                Some(v) => r == Ok::<T, GratError>(v),
                None => rpc_error_text(r) == Some("empty result"@),
            },
        },
    }
}

/// Decides what the plain JSON-RPC transport does next. Failed requests and
/// rate limits are retried up to `max_retries` times, waiting
/// `100 * 2^attempt` milliseconds; the last of them ends the call with its
/// error. Every other response ends the call with the envelope's error or
/// result.
pub fn transport_step<T>(state: TransportState, event: TransportEvent<T>) -> (r: (TransportState, TransportAction<T>))
    requires
        state.attempt <= state.max_retries,
        transport_retryable(event) && state.attempt < state.max_retries ==> transport_backoff_ms(
            (state.attempt + 1) as nat,
        ) <= u64::MAX,
    ensures
        transport_action_kind(r.1) == transport_kind(state.attempt, state.max_retries, event),
        r.0.max_retries == state.max_retries,
        r.0.attempt <= r.0.max_retries,
        r.1 matches TransportAction::Send { attempt, .. } ==> r.0.attempt == attempt,
        transport_retryable(event) && state.attempt < state.max_retries ==> rpc_error_message(
            r.0.last_error,
        ) == Some(transport_retry_text(event)),
        transport_retryable(event) && state.attempt >= state.max_retries ==> (r.1 matches TransportAction::Finish(
            res,
        ) && rpc_error_text(res) == Some(transport_retry_text(event))),
        event matches TransportEvent::BodyReadFailed(e) ==> (r.1 matches TransportAction::Finish(res)
            && rpc_error_text(res) == Some("response read error: "@ + e@)),
        event matches TransportEvent::Body { status, parsed } ==> status != 429 ==> (r.1 matches TransportAction::Finish(
            res,
        ) && transport_result(parsed, res)),
{
    let max_retries = state.max_retries;
    let attempt = state.attempt;
    let retry_error = match event {
        TransportEvent::Begin => {
            return (TransportState { attempt: 0, max_retries, last_error: None }, TransportAction::Send {
                attempt: 0,
                delay_ms: 0,
            });
        },
        TransportEvent::SendFailed(e) => {
            let mut msg = String::from_str("request failed: ");
            msg.append(e.as_str());
            msg
        },
        TransportEvent::BodyReadFailed(e) => {
            let mut msg = String::from_str("response read error: ");
            msg.append(e.as_str());
            return (state, TransportAction::Finish(Err(GratError::RpcError(msg))));
        },
        TransportEvent::Body { status, parsed } => {
            if status == 429 {
                String::from_str("rate limited")
            } else {
                let res = match parsed {
                    Err(e) => {
                        let mut msg = String::from_str("response parse error: ");
                        msg.append(e.as_str());
                        Err(GratError::RpcError(msg))
                    },
                    Ok(env) => match env.error {
                        Some(err) => Err(GratError::JsonRpc(err)),
                        None => match env.result {
                            Some(v) => Ok(v),
                            None => Err(GratError::RpcError(String::from_str("empty result"))),
                        },
                    },
                };
                return (state, TransportAction::Finish(res));
            }
        },
    };
    if attempt < max_retries {
        let next = attempt + 1;
        let delay_ms = transport_backoff_millis(next);
        (TransportState { attempt: next, max_retries, last_error: Some(GratError::RpcError(retry_error)) },
            TransportAction::Send { attempt: next, delay_ms })
    } else {
        (TransportState { attempt, max_retries, last_error: None }, TransportAction::Finish(
            Err(GratError::RpcError(retry_error)),
        ))
    }
}

/// The number of requests the plain transport sends for a run of events,
/// from attempt `attempt` on, until the call ends.
pub open spec fn transport_sends_after<T>(attempt: u32, max_retries: u32, events: Seq<TransportEvent<T>>) -> nat
    decreases events.len(),
{
    if events.len() == 0 {
        0
    } else {
        match transport_kind(attempt, max_retries, events[0]) {
            StepKind::Send(a, _) => 1 + transport_sends_after(a, max_retries, events.drop_first()),
            _ => 0,
        }
    }
}

/// Whatever answers come back, a call of the plain transport that has begun
/// sends at most `max_retries` more requests after its first.
pub proof fn law_transport_retries_are_bounded<T>(attempt: u32, max_retries: u32, events: Seq<TransportEvent<T>>)
    requires
        attempt <= max_retries,
        forall|i: int| 0 <= i < events.len() ==> !(#[trigger] events[i] is Begin),
    ensures
        transport_sends_after(attempt, max_retries, events) <= max_retries - attempt,
    decreases events.len(),
{
    if events.len() > 0 {
        let rest = events.drop_first();
        assert forall|i: int| 0 <= i < rest.len() implies !(#[trigger] rest[i] is Begin) by {
            assert(rest[i] == events[i + 1]);
        }
        match transport_kind(attempt, max_retries, events[0]) {
            StepKind::Send(a, _) => {
                law_transport_retries_are_bounded(a, max_retries, rest);
            },
            _ => {},
        }
    }
}

} // verus!
