//! Soroban RPC response types and the decisions of the RPC client: how long
//! to back off, which HTTP outcomes are retried, what each outcome is
//! answered, and how `getLedgerEntries` requests are batched.

use vstd::prelude::*;
use crate::error::{GratError, GratResult};
use crate::rpc::jsonrpc::JsonRpcResponse;
use crate::json::{
    find_member, json_seq_view, json_view, lemma_json_seq_view_index, lemma_members_view_index,
    member_position, members_view, Json, JsonMember, JsonValue,
};
use crate::text::{decimal_digits, u64_to_decimal};

verus! {

/// Delay before the first retry, in milliseconds.
pub const BASE_DELAY_MS: u64 = 100;

/// Longest delay between two attempts, in milliseconds.
pub const MAX_DELAY_MS: u64 = 10_000;

/// Most keys sent in one `getLedgerEntries` request.
pub const LEDGER_ENTRIES_CHUNK_SIZE: usize = 100;

/// Retries after the first attempt of a call.
pub const MAX_RETRIES: u32 = 3;

/// Two to the power `n`.
pub open spec fn pow2(n: nat) -> nat
    decreases n,
{
    if n == 0 {
        1
    } else {
        2 * pow2((n - 1) as nat)
    }
}

/// Powers of two grow with the exponent.
pub proof fn lemma_pow2_monotone(i: nat, j: nat)
    requires
        i <= j,
    ensures
        pow2(i) <= pow2(j),
    decreases j - i,
{
    if i < j {
        lemma_pow2_monotone(i, (j - 1) as nat);
    }
}

/// The delay before attempt `attempt`: the base delay doubled once per
/// attempt, capped at the maximum delay.
pub open spec fn backoff_ms(attempt: nat) -> int {
    if BASE_DELAY_MS * pow2(attempt) < MAX_DELAY_MS {
        BASE_DELAY_MS * pow2(attempt)
    } else {
        MAX_DELAY_MS as int
    }
}

/// The delay before attempt `attempt`, in milliseconds.
pub fn backoff_millis(attempt: u32) -> (ms: u64)
    ensures
        ms == backoff_ms(attempt as nat),
{
    let mut ms: u64 = BASE_DELAY_MS;
    let mut i: u32 = 0;
    while i < attempt && ms < MAX_DELAY_MS
        invariant
            i <= attempt,
            ms == BASE_DELAY_MS * pow2(i as nat),
            ms < 2 * MAX_DELAY_MS,
        decreases attempt - i,
    {
        ms = ms * 2;
        i = i + 1;
    }
    if ms < MAX_DELAY_MS {
        ms
    } else {
        proof {
            lemma_pow2_monotone(i as nat, attempt as nat);
        }
        MAX_DELAY_MS
    }
}

/// The delay starts at the base delay and doubles from one attempt to the
/// next until it reaches the cap, where it stays.
pub proof fn law_backoff_doubles_until_capped(attempt: nat)
    ensures
        backoff_ms(0) == BASE_DELAY_MS,
        backoff_ms(attempt + 1) == if 2 * backoff_ms(attempt) < MAX_DELAY_MS {
            2 * backoff_ms(attempt)
        } else {
            MAX_DELAY_MS as int
        },
{
    assert(pow2(attempt + 1) == 2 * pow2(attempt));
    assert(BASE_DELAY_MS * pow2(attempt + 1) == 2 * (BASE_DELAY_MS * pow2(attempt)));
}

/// The `Duration` that `std::time::Duration::from_millis` makes of a number
/// of milliseconds.
pub uninterp spec fn duration_of_millis(ms: u64) -> std::time::Duration;

/// Builds a `Duration` of `ms` milliseconds with
/// `std::time::Duration::from_millis`. `Duration` is opaque to the verifier;
/// the claim is that the result is `duration_of_millis(ms)`, a function of
/// the number alone.
#[verifier::external_body]
fn duration_from_millis(ms: u64) -> (d: std::time::Duration)
    ensures
        d == duration_of_millis(ms),
{
    std::time::Duration::from_millis(ms)
}

/// The delay before attempt `attempt`, as a `Duration` of
/// `backoff_millis(attempt)` milliseconds.
pub fn backoff_duration(attempt: u32) -> (d: std::time::Duration)
    ensures
        d == duration_of_millis(backoff_ms(attempt as nat) as u64),
{
    duration_from_millis(backoff_millis(attempt))
}

/// The ledger footprint of a simulated transaction.
#[derive(Debug, Clone)]
pub struct SimulateFootprint {
    pub read_only: Vec<String>,
    pub read_write: Vec<String>,
}

/// One authorization entry of a simulation.
#[derive(Debug, Clone)]
pub struct SimulateAuthEntry {
    pub xdr: String,
}

/// The resource cost of a simulation.
#[derive(Debug, Clone)]
pub struct SimulateCost {
    pub cpu_insns: String,
    pub mem_bytes: String,
}

/// The Soroban transaction data of a simulation.
#[derive(Debug, Clone)]
pub struct SimulateSorobanData {
    pub data: String,
    pub min_resource_fee: String,
}

/// One result of a simulation.
#[derive(Debug, Clone)]
pub struct SimulateResult {
    pub xdr: String,
    pub auth: Vec<String>,
}

/// The answer to `simulateTransaction`.
#[derive(Debug, Clone)]
pub struct SimulateTransactionResponse {
    pub latest_ledger: u32,
    pub soroban_data: Option<String>,
    pub min_resource_fee: Option<String>,
    pub auth: Vec<String>,
    pub results: Vec<SimulateResult>,
    pub error: Option<String>,
    pub events: Vec<String>,
    pub cost: Option<SimulateCost>,
}

impl SimulateTransactionResponse {
    /// Whether the simulation succeeded: it reported no error.
    pub fn is_success(&self) -> (r: bool)
        ensures
            r == self.error.is_none(),
    {
        self.error.is_none()
    }

    /// The XDR of the first result's return value, if there is a result.
    pub fn return_value_xdr(&self) -> (r: Option<&str>)
        ensures
            match r {
                Some(s) => self.results@.len() > 0 && s@ == self.results@[0].xdr@,
                None => self.results@.len() == 0,
            },
    {
        if self.results.len() > 0 {
            Some(self.results[0].xdr.as_str())
        } else {
            None
        }
    }
}

/// The answer of `simulateTransaction` as the client returns it: a
/// simulation that reports an error is a failed call.
pub fn check_simulation(response: SimulateTransactionResponse) -> (r: GratResult<SimulateTransactionResponse>)
    ensures
        match response.error {
            Some(e) => rpc_error_text(r) == Some("simulateTransaction failed: "@ + e@),
            None => r == Ok::<SimulateTransactionResponse, GratError>(response),
        },
{
    let failure = match &response.error {
        Some(e) => {
            let mut msg = String::from_str("simulateTransaction failed: ");
            msg.append(e.as_str());
            Some(msg)
        },
        None => None,
    };
    match failure {
        Some(msg) => Err(GratError::RpcError(msg)),
        None => Ok(response),
    }
}

/// The status of a transaction as `getTransaction` reports it.
#[derive(Debug, Clone, Copy, PartialEq, Eq)]
pub enum TransactionStatus {
    Success,
    NotFound,
    Failed,
}

/// The answer to `getTransaction`.
#[derive(Debug, Clone)]
pub struct GetTransactionResponse {
    pub status: TransactionStatus,
    pub latest_ledger: u32,
    pub latest_ledger_close_time: Option<u64>,
    pub oldest_ledger: Option<u32>,
    pub oldest_ledger_close_time: Option<u64>,
    pub ledger: Option<u32>,
    pub created_at: Option<String>,
    pub application_order: Option<u32>,
    pub fee_bump: Option<String>,
    pub envelope_xdr: Option<String>,
    pub result_xdr: Option<String>,
    pub result_meta_xdr: Option<String>,
}

/// An HTTP status in the server-error class (5xx).
pub open spec fn is_server_error(status: u16) -> bool {
    500 <= status <= 599
}

/// An HTTP status in the success class (2xx).
pub open spec fn is_success_status(status: u16) -> bool {
    200 <= status <= 299
}

/// The text that `reqwest::StatusCode` displays for a status code: the code
/// and its canonical reason phrase.
pub uninterp spec fn status_code_text(code: u16) -> Seq<char>;

/// Displays a status code as `reqwest::StatusCode` (`http::StatusCode`) does.
/// The claim: the text is `status_code_text(code)`, a function of the code alone.
#[verifier::external_body]
fn status_display(code: u16) -> (s: String)
    requires
        100 <= code <= 999,
    ensures
        s@ == status_code_text(code),
{
    match reqwest::StatusCode::from_u16(code) {
        Ok(status) => status.to_string(),
        Err(_) => String::new(),
    }
}

/// How far an RPC call has come: the number of the attempt in flight, and
/// the error of the last attempt that failed in a way that is retried.
pub struct CallState {
    pub attempt: u32,
    pub last_error: Option<GratError>,
}

/// What happened to the request of the attempt in flight.
pub enum CallEvent<T> {
    /// The call starts; nothing has been sent yet.
    Begin,
    /// The request could not be sent or answered; the transport's message.
    SendFailed(String),
    /// A response arrived with this HTTP status.
    Status(u16),
    /// The body of the response could not be read; the transport's message.
    BodyReadFailed(String),
    /// The body was read, and parsed as a JSON-RPC envelope or not (the
    /// parser's message).
    Body { status: u16, body: String, parsed: Result<JsonRpcResponse<T>, String> },
}

/// What the client does next.
pub enum CallAction<T> {
    /// Wait `delay_ms` milliseconds, then send the request as attempt `attempt`.
    Send { attempt: u32, delay_ms: u64 },
    /// Read the body of the response.
    ReadBody,
    /// The call is over, with this result.
    Finish(GratResult<T>),
}

/// One decision: an HTTP error status to count in the metrics, if any, and
/// the next action.
pub struct CallStep<T> {
    pub record_http_error: Option<u16>,
    pub action: CallAction<T>,
}

/// The shape of a decision, without the result it may carry.
pub enum StepKind {
    Send(u32, int),
    ReadBody,
    Finish,
}

/// The shape of an action.
pub open spec fn action_kind<T>(a: CallAction<T>) -> StepKind {
    match a {
        CallAction::Send { attempt, delay_ms } => StepKind::Send(attempt, delay_ms as int),
        CallAction::ReadBody => StepKind::ReadBody,
        CallAction::Finish(_) => StepKind::Finish,
    }
}

/// After a failure that is retried: the next attempt, or the end of the call
/// once the retries are spent.
pub open spec fn retry_kind(attempt: u32) -> StepKind {
    if attempt < MAX_RETRIES {
        StepKind::Send((attempt + 1) as u32, backoff_ms((attempt + 1) as nat))
    } else {
        StepKind::Finish
    }
}

/// Whether an event is a failure that is retried: a transport failure, a
/// rate limit (429) or a server error (5xx).
pub open spec fn is_retryable<T>(event: CallEvent<T>) -> bool {
    match event {
        CallEvent::SendFailed(_) => true,
        CallEvent::Status(s) => s == 429 || is_server_error(s),
        _ => false,
    }
}

/// The shape of the decision on `event` during attempt `attempt`.
pub open spec fn step_kind<T>(attempt: u32, event: CallEvent<T>) -> StepKind {
    match event {
        CallEvent::Begin => StepKind::Send(0, 0),
        CallEvent::Status(s) => if s == 429 || is_server_error(s) {
            retry_kind(attempt)
        } else {
            StepKind::ReadBody
        },
        CallEvent::SendFailed(_) => retry_kind(attempt),
        _ => StepKind::Finish,
    }
}

/// The message of a failed attempt that is retried.
pub open spec fn retry_error_text<T>(attempt: u32, event: CallEvent<T>) -> Seq<char> {
    match event {
        CallEvent::SendFailed(e) => "HTTP request failed: "@ + e@,
        CallEvent::Status(s) => if s == 429 {
            "Rate limited (attempt "@ + decimal_digits(attempt as nat) + ")"@
        } else {
            "Server error "@ + status_code_text(s) + " on attempt "@ + decimal_digits(attempt as nat)
        },
        _ => Seq::empty(),
    }
}

/// The message of an `RpcError` result.
pub open spec fn rpc_error_text<T>(r: GratResult<T>) -> Option<Seq<char>> {
    match r {
        Err(GratError::RpcError(m)) => Some(m@),
        _ => None,
    }
}

/// The message of an `RpcError`.
pub open spec fn rpc_error_message(e: Option<GratError>) -> Option<Seq<char>> {
    match e {
        Some(GratError::RpcError(m)) => Some(m@),
        _ => None,
    }
}

/// The result of a call whose response body was read: a status outside 2xx
/// is an error that quotes the body; else the envelope's error, or its
/// result, or an error for an empty result.
pub open spec fn body_result<T>(
    status: u16,
    body: Seq<char>,
    parsed: Result<JsonRpcResponse<T>, String>,
    r: GratResult<T>,
) -> bool {
    if !is_success_status(status) {
        rpc_error_text(r) == Some("RPC request failed with HTTP "@ + status_code_text(status) + ": "@ + body)
    } else {
        match parsed {
            Err(e) => rpc_error_text(r) == Some("Response parse error: "@ + e@),
            Ok(env) => match env.error {
                Some(err) => r == Err::<T, GratError>(GratError::JsonRpc(err)),
                None => match env.result {
                    Some(v) => r == Ok::<T, GratError>(v),
                    None => rpc_error_text(r) == Some("Empty result in RPC response"@),
                },
            },
        }
    }
}

/// Every status an event carries is one that an HTTP status code can hold.
pub open spec fn event_status_valid<T>(event: CallEvent<T>) -> bool {
    match event {
        CallEvent::Status(s) => 100 <= s <= 999,
        CallEvent::Body { status, .. } => 100 <= status <= 999,
        _ => true,
    }
}

/// The result of a call whose response body was read.
pub fn finish_body<T>(status: u16, body: String, parsed: Result<JsonRpcResponse<T>, String>) -> (r: GratResult<T>)
    requires
        100 <= status <= 999,
    ensures
        body_result(status, body@, parsed, r),
{
    if !(200 <= status && status <= 299) {
        let mut msg = String::from_str("RPC request failed with HTTP ");
        let text = status_display(status);
        msg.append(text.as_str());
        msg.append(": ");
        msg.append(body.as_str());
        return Err(GratError::RpcError(msg));
    }
    match parsed {
        Err(e) => {
            let mut msg = String::from_str("Response parse error: ");
            msg.append(e.as_str());
            Err(GratError::RpcError(msg))
        },
        Ok(env) => match env.error {
            Some(err) => Err(GratError::JsonRpc(err)),
            None => match env.result {
                Some(v) => Ok(v),
                None => Err(GratError::RpcError(String::from_str("Empty result in RPC response"))),
            },
        },
    }
}

/// After a failure that is retried: send the next attempt after its backoff,
/// or end the call with the last error once the retries are spent.
fn retry_or_finish<T>(attempt: u32, error: String, record: Option<u16>) -> (r: (CallState, CallStep<T>))
    requires
        attempt <= MAX_RETRIES,
    ensures
        r.1.record_http_error == record,
        action_kind(r.1.action) == retry_kind(attempt),
        attempt < MAX_RETRIES ==> r.0.attempt == attempt + 1 && rpc_error_message(r.0.last_error)
            == Some(error@),
        attempt >= MAX_RETRIES ==> r.0.attempt == attempt && (r.1.action matches CallAction::Finish(
            res,
        ) && rpc_error_text(res) == Some(error@)),
{
    let last_error = Some(GratError::RpcError(error));
    if attempt < MAX_RETRIES {
        let next = attempt + 1;
        let delay_ms = backoff_millis(next);
        (CallState { attempt: next, last_error }, CallStep {
            record_http_error: record,
            action: CallAction::Send { attempt: next, delay_ms },
        })
    } else {
        let final_error = match last_error {
            Some(e) => e,
            None => GratError::RpcError(String::from_str("Unknown RPC error")),
        };
        (CallState { attempt, last_error: None }, CallStep {
            record_http_error: record,
            action: CallAction::Finish(Err(final_error)),
        })
    }
}

/// Decides what an RPC call does next, given what happened to the attempt
/// in flight. Transport failures, rate limits (429) and server errors (5xx)
/// are retried up to `MAX_RETRIES` times with exponential backoff, and the
/// last of them ends the call; any other status has its body read, and the
/// body decides the result. Rate limits and server errors are counted in
/// the metrics.
pub fn next_step<T>(state: CallState, event: CallEvent<T>) -> (r: (CallState, CallStep<T>))
    requires
        state.attempt <= MAX_RETRIES,
        event_status_valid(event),
    ensures
        action_kind(r.1.action) == step_kind(state.attempt, event),
        r.0.attempt <= MAX_RETRIES,
        r.1.action matches CallAction::Send { attempt, .. } ==> r.0.attempt == attempt,
        !(r.1.action is Send) ==> r.0.attempt == state.attempt || event is Begin,
        r.1.record_http_error == match event {
            CallEvent::Status(s) => if s == 429 || is_server_error(s) {
                Some(s)
            } else {
                None
            },
            CallEvent::Body { status, .. } => if !is_success_status(status) && (status == 500
                || status == 429) {
                Some(status)
            } else {
                None
            },
            _ => None,
        },
        is_retryable(event) && state.attempt < MAX_RETRIES ==> rpc_error_message(r.0.last_error)
            == Some(retry_error_text(state.attempt, event)),
        is_retryable(event) && state.attempt >= MAX_RETRIES ==> (r.1.action matches CallAction::Finish(
            res,
        ) && rpc_error_text(res) == Some(retry_error_text(state.attempt, event))),
        event matches CallEvent::BodyReadFailed(e) ==> (r.1.action matches CallAction::Finish(res)
            && rpc_error_text(res) == Some("Failed to read response body: "@ + e@)),
        event matches CallEvent::Body { status, body, parsed } ==> (r.1.action matches CallAction::Finish(
            res,
        ) && body_result(status, body@, parsed, res)),
{
    let ghost ev = event;
    let attempt = state.attempt;
    match event {
        CallEvent::Begin => (CallState { attempt: 0, last_error: None }, CallStep {
            record_http_error: None,
            action: CallAction::Send { attempt: 0, delay_ms: 0 },
        }),
        CallEvent::SendFailed(e) => {
            let mut msg = String::from_str("HTTP request failed: ");
            msg.append(e.as_str());
            retry_or_finish(attempt, msg, None)
        },
        CallEvent::Status(s) => {
            if s == 429 {
                let mut msg = String::from_str("Rate limited (attempt ");
                let n = u64_to_decimal(attempt as u64);
                msg.append(n.as_str());
                msg.append(")");
                retry_or_finish(attempt, msg, Some(429))
            } else if 500 <= s && s <= 599 {
                let mut msg = String::from_str("Server error ");
                let text = status_display(s);
                msg.append(text.as_str());
                msg.append(" on attempt ");
                let n = u64_to_decimal(attempt as u64);
                msg.append(n.as_str());
                retry_or_finish(attempt, msg, Some(s))
            } else {
                (state, CallStep { record_http_error: None, action: CallAction::ReadBody })
            }
        },
        CallEvent::BodyReadFailed(e) => {
            let mut msg = String::from_str("Failed to read response body: ");
            msg.append(e.as_str());
            (state, CallStep {
                record_http_error: None,
                action: CallAction::Finish(Err(GratError::RpcError(msg))),
            })
        },
        CallEvent::Body { status, body, parsed } => {
            let record = if !(200 <= status && status <= 299) && (status == 500 || status == 429) {
                Some(status)
            } else {
                None
            };
            let res = finish_body(status, body, parsed);
            (state, CallStep { record_http_error: record, action: CallAction::Finish(res) })
        },
    }
}

/// The number of requests sent for a run of events, from attempt `attempt`
/// on, until the call ends.
pub open spec fn sends_after<T>(attempt: u32, events: Seq<CallEvent<T>>) -> nat
    decreases events.len(),
{
    if events.len() == 0 {
        0
    } else {
        match step_kind(attempt, events[0]) {
            StepKind::Send(a, _) => 1 + sends_after(a, events.drop_first()),
            StepKind::ReadBody => sends_after(attempt, events.drop_first()),
            StepKind::Finish => 0,
        }
    }
}

/// Whatever happens to its requests, a call that has begun sends at most
/// `MAX_RETRIES` more requests after its first.
pub proof fn law_retries_are_bounded<T>(attempt: u32, events: Seq<CallEvent<T>>)
    requires
        attempt <= MAX_RETRIES,
        forall|i: int| 0 <= i < events.len() ==> !(#[trigger] events[i] is Begin),
    ensures
        sends_after(attempt, events) <= MAX_RETRIES - attempt,
    decreases events.len(),
{
    if events.len() > 0 {
        let rest = events.drop_first();
        assert forall|i: int| 0 <= i < rest.len() implies !(#[trigger] rest[i] is Begin) by {
            assert(rest[i] == events[i + 1]);
        }
        match step_kind(attempt, events[0]) {
            StepKind::Send(a, _) => {
                law_retries_are_bounded(a, rest);
            },
            StepKind::ReadBody => {
                law_retries_are_bounded(attempt, rest);
            },
            StepKind::Finish => {},
        }
    }
}

/// Each retry sends the next attempt after that attempt's backoff delay,
/// and the delays never exceed the maximum.
pub proof fn law_retry_waits_backoff<T>(attempt: u32, event: CallEvent<T>)
    requires
        attempt <= MAX_RETRIES,
        !(event is Begin),
    ensures
        step_kind(attempt, event) matches StepKind::Send(a, d) ==> a == attempt + 1 && d == backoff_ms(
            a as nat,
        ) && BASE_DELAY_MS <= d <= MAX_DELAY_MS,
{
    match step_kind(attempt, event) {
        StepKind::Send(a, _) => {
            lemma_pow2_monotone(0, a as nat);
        },
        _ => {},
    }
}

/// The keys of one `getLedgerEntries` batch: keys `LEDGER_ENTRIES_CHUNK_SIZE * i`
/// up to the next multiple, or the end.
pub open spec fn chunk_of(keys: Seq<Seq<char>>, i: int) -> Seq<Seq<char>> {
    let start = LEDGER_ENTRIES_CHUNK_SIZE * i;
    let end = if start + LEDGER_ENTRIES_CHUNK_SIZE < keys.len() {
        start + LEDGER_ENTRIES_CHUNK_SIZE
    } else {
        keys.len() as int
    };
    keys.subrange(start, end)
}

/// The number of batches for `n` keys: one per started chunk, and one (empty)
/// batch when there are no keys.
pub open spec fn chunk_count(n: nat) -> nat {
    if n == 0 {
        1
    } else {
        ((n + LEDGER_ENTRIES_CHUNK_SIZE - 1) / LEDGER_ENTRIES_CHUNK_SIZE as int) as nat
    }
}

/// The first `n` batches laid end to end.
pub open spec fn concat_chunks(keys: Seq<Seq<char>>, n: nat) -> Seq<Seq<char>>
    decreases n,
{
    if n == 0 {
        Seq::empty()
    } else {
        concat_chunks(keys, (n - 1) as nat) + chunk_of(keys, n - 1)
    }
}

proof fn lemma_concat_chunks_prefix(keys: Seq<Seq<char>>, n: nat)
    requires
        LEDGER_ENTRIES_CHUNK_SIZE * (n - 1) <= keys.len() || n == 0,
    ensures
        concat_chunks(keys, n) == keys.take(
            if LEDGER_ENTRIES_CHUNK_SIZE * n < keys.len() {
                LEDGER_ENTRIES_CHUNK_SIZE * n
            } else {
                keys.len() as int
            },
        ),
    decreases n,
{
    if n > 0 {
        lemma_concat_chunks_prefix(keys, (n - 1) as nat);
        let start = LEDGER_ENTRIES_CHUNK_SIZE * (n - 1);
        let end = if start + LEDGER_ENTRIES_CHUNK_SIZE < keys.len() {
            start + LEDGER_ENTRIES_CHUNK_SIZE
        } else {
            keys.len() as int
        };
        assert(keys.take(start) + keys.subrange(start, end) =~= keys.take(end));
    } else {
        assert(keys.take(0) =~= Seq::<Seq<char>>::empty());
    }
}

/// Laid end to end, the batches of `getLedgerEntries` keys give back the
/// keys, each once and in order.
pub proof fn law_chunks_cover_keys(keys: Seq<Seq<char>>)
    ensures
        concat_chunks(keys, chunk_count(keys.len())) == keys,
{
    let n = chunk_count(keys.len());
    if keys.len() == 0 {
        assert(concat_chunks(keys, 0) == Seq::<Seq<char>>::empty());
        assert(chunk_of(keys, 0) =~= keys);
        assert(concat_chunks(keys, 1) =~= keys);
    } else {
        assert(LEDGER_ENTRIES_CHUNK_SIZE * (n - 1) <= keys.len());
        assert(LEDGER_ENTRIES_CHUNK_SIZE * n >= keys.len());
        lemma_concat_chunks_prefix(keys, n);
        assert(keys.take(keys.len() as int) =~= keys);
    }
}

/// The views of a sequence of strings.
pub open spec fn strings_view(s: Seq<String>) -> Seq<Seq<char>> {
    s.map_values(|t: String| t@)
}

/// Splits ledger keys into the batches that `getLedgerEntries` requests carry,
/// in order. With no keys there is one empty batch.
pub fn ledger_key_chunks(keys: &Vec<String>) -> (chunks: Vec<Vec<String>>)
    ensures
        chunks@.len() == chunk_count(keys@.len()),
        forall|i: int|
            0 <= i < chunks@.len() ==> strings_view(#[trigger] chunks@[i]@) == chunk_of(
                strings_view(keys@),
                i,
            ),
{
    let ghost kv = strings_view(keys@);
    let mut chunks: Vec<Vec<String>> = Vec::new();
    let mut current: Vec<String> = Vec::new();
    let mut i: usize = 0;
    while i < keys.len()
        invariant
            i <= keys@.len(),
            kv == strings_view(keys@),
            chunks@.len() == (i as int) / (LEDGER_ENTRIES_CHUNK_SIZE as int),
            current@.len() == (i as int) % (LEDGER_ENTRIES_CHUNK_SIZE as int),
            strings_view(current@) == kv.subrange(i - current@.len(), i as int),
            forall|j: int|
                0 <= j < chunks@.len() ==> strings_view(#[trigger] chunks@[j]@) == chunk_of(kv, j),
        decreases keys@.len() - i,
    {
        let ghost before = current@;
        current.push(keys[i].clone());
        assert(strings_view(current@) =~= kv.subrange(i + 1 - current@.len(), i + 1));
        i = i + 1;
        if current.len() == LEDGER_ENTRIES_CHUNK_SIZE {
            let ghost full = current@;
            let ghost k = chunks@.len();
            assert(chunk_of(kv, k as int) =~= strings_view(full)) by {
                assert(LEDGER_ENTRIES_CHUNK_SIZE * k == i - 100);
            }
            chunks.push(current);
            current = Vec::new();
        }
    }
    if current.len() > 0 || chunks.len() == 0 {
        let ghost k = chunks@.len();
        assert(chunk_of(kv, k as int) =~= strings_view(current@)) by {
            assert(LEDGER_ENTRIES_CHUNK_SIZE * k == i - current@.len());
        }
        chunks.push(current);
    }
    chunks
}

/// The `entries` array of a `getLedgerEntries` answer, if it has one.
pub open spec fn entries_array(v: JsonValue) -> Option<Seq<JsonValue>> {
    match v {
        JsonValue::Object(m) => {
            let p = member_position(m, "entries"@);
            if p >= 0 {
                match m[p].1 {
                    JsonValue::Array(items) => Some(items),
                    _ => None,
                }
            } else {
                None
            }
        },
        _ => None,
    }
}

/// An answer with its `entries` array replaced by `items`.
pub open spec fn with_entries(v: JsonValue, items: Seq<JsonValue>) -> JsonValue {
    match v {
        JsonValue::Object(m) => JsonValue::Object(
            m.update(member_position(m, "entries"@), ("entries"@, JsonValue::Array(items))),
        ),
        _ => v,
    }
}

fn missing_entries() -> (e: GratError)
    ensures
        e matches GratError::RpcError(m) && m@ == "getLedgerEntries response is missing an entries array"@,
{
    GratError::RpcError(String::from_str("getLedgerEntries response is missing an entries array"))
}

/// The items of the `entries` array of an answer, taken out of it.
fn take_entries(response: Json) -> (r: Option<Vec<Json>>)
    ensures
        match r {
            Some(items) => entries_array(json_view(response)) == Some(json_seq_view(items@)),
            None => entries_array(json_view(response)) is None,
        },
{
    let ghost resp_view = json_view(response);
    match response {
        Json::Object(members) => {
            let pos = find_member(&members, "entries");
            match pos {
                Some(p) => {
                    proof {
                        lemma_members_view_index(members@);
                    }
                    let mut members = members;
                    let member = members.remove(p);
                    match member.value {
                        Json::Array(items) => Some(items),
                        other => {
                            assert(!(json_view(other) is Array));
                            None
                        },
                    }
                },
                None => None,
            }
        },
        _ => None,
    }
}

/// Whether a value is an array.
fn is_array(j: &Json) -> (b: bool)
    ensures
        b == json_view(*j) is Array,
{
    match j {
        Json::Array(_) => true,
        _ => false,
    }
}

/// Appends `extra` to the items of the `entries` member at position `p`.
fn extend_entries_member(members: Vec<JsonMember>, p: usize, extra: Vec<Json>) -> (r: Vec<JsonMember>)
    requires
        p < members@.len(),
        members@[p as int].key@ == "entries"@,
        json_view(members@[p as int].value) is Array,
    ensures
        members_view(r@) == members_view(members@).update(
            p as int,
            ("entries"@, JsonValue::Array(json_view(members@[p as int].value)->Array_0 + json_seq_view(extra@))),
        ),
{
    proof {
        lemma_members_view_index(members@);
    }
    let ghost before = members@;
    let mut members = members;
    let member = members.remove(p);
    match member.value {
        Json::Array(items) => {
            let ghost a = items@;
            let ghost b = extra@;
            let mut items = items;
            let mut extra = extra;
            items.append(&mut extra);
            let new_member = JsonMember { key: member.key, value: Json::Array(items) };
            members.insert(p, new_member);
            proof {
                lemma_json_seq_view_index(a);
                lemma_json_seq_view_index(b);
                lemma_json_seq_view_index(items@);
                assert(json_seq_view(items@) =~= json_seq_view(a) + json_seq_view(b));
                lemma_members_view_index(members@);
                assert(members@ =~= before.update(p as int, new_member));
                assert(members_view(members@) =~= members_view(before).update(
                    p as int,
                    ("entries"@, JsonValue::Array(json_seq_view(a) + json_seq_view(b))),
                ));
            }
            members
        },
        other => {
            members.insert(p, JsonMember { key: member.key, value: other });
            members
        },
    }
}

/// Appends the `entries` of a later `getLedgerEntries` answer to those of the
/// combined answer. Both must carry an `entries` array; otherwise the
/// combined answer is left as it was and the call fails.
pub fn append_ledger_entries(combined: &mut Json, response: Json) -> (r: GratResult<()>)
    ensures
        match (entries_array(json_view(*old(combined))), entries_array(json_view(response))) {
            (Some(a), Some(b)) => r is Ok && json_view(*final(combined)) == with_entries(
                json_view(*old(combined)),
                a + b,
            ),
            _ => rpc_error_text(r) == Some("getLedgerEntries response is missing an entries array"@)
                && *final(combined) == *old(combined),
        },
{
    let extra = match take_entries(response) {
        Some(items) => items,
        None => {
            return Err(missing_entries());
        },
    };
    let ghost old_view = json_view(*combined);
    let mut owned = Json::Null;
    std::mem::swap(&mut owned, combined);
    match owned {
        Json::Object(members) => {
            let pos = find_member(&members, "entries");
            match pos {
                Some(p) => {
                    proof {
                        lemma_members_view_index(members@);
                    }
                    if is_array(&members[p].value) {
                        let members = extend_entries_member(members, p, extra);
                        *combined = Json::Object(members);
                        Ok(())
                    } else {
                        *combined = Json::Object(members);
                        Err(missing_entries())
                    }
                },
                None => {
                    *combined = Json::Object(members);
                    Err(missing_entries())
                },
            }
        },
        other => {
            *combined = other;
            Err(missing_entries())
        },
    }
}

} // verus!
