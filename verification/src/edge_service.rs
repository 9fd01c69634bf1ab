//! The dispatcher: the fixed table of operations that an instance offers to
//! its peers, the rules by which a call is queued for the processing loop and
//! its reply awaited, and the counters kept along the way.
//!
//! Waiting, queueing and sending are the caller's part. The dispatcher decides:
//! it says what to queue and how long to wait, and turns what the wait brought
//! into the reply or the failure that the peer receives.

use vstd::prelude::*;
use vstd::string::*;
use crate::json::{json_text, json_to_vec};
use crate::messages::{lookup, member, members_view, ToolCallRecord};
use crate::text::{joined, owned, parse_bool, parse_decimal, parsed_bool, parsed_decimal, str_eq};

verus! {

/// Capacity of the work queue towards the processing loop.
pub const AGENT_QUEUE_CAPACITY: usize = 64;

/// Capacity of the queue of configuration updates.
pub const CONFIG_QUEUE_CAPACITY: usize = 16;

/// Capacity of the relay queue of one streaming call.
pub const RELAY_QUEUE_CAPACITY: usize = 128;

/// Time units for which a unary call waits for its reply.
pub const UNARY_CEILING: u64 = 30;

/// Time units for which a streaming call waits for its terminal result, once
/// the relay has closed.
pub const STREAM_CEILING: u64 = 120;

/// Milliseconds left to the transport after the last chunk of a stream,
/// before the call returns.
pub const SETTLE_DELAY_MS: u64 = 50;

/// A call on its way to the processing loop: the payload, the slot that the
/// loop fulfils with the result, and for a streaming call the sink that takes
/// the chunks.
#[derive(Debug)]
pub struct AgentRequest<Slot, Sink> {
    pub message: String,
    pub channel: String,
    pub metadata: Vec<(String, String)>,
    pub response_tx: Slot,
    pub stream_delta_tx: Option<Sink>,
}

/// What the processing loop answers.
#[derive(Debug, Clone)]
pub struct AgentResponse {
    pub response: String,
    pub tool_calls: Vec<ToolCallRecord>,
    pub iterations: i32,
}

/// A snapshot of the instance: what it is doing, and how much it has done.
#[derive(Debug, Clone)]
pub struct InstanceStatus {
    pub status: String,
    pub memory_kb: u64,
    pub uptime_seconds: i64,
    pub messages_handled: i32,
    pub tool_calls_total: i32,
}

impl InstanceStatus {
    /// A snapshot with the given status text and nothing counted yet.
    pub fn with_status(status: &str) -> (s: Self)
        ensures
            s.status@ == status@,
            s.memory_kb == 0,
            s.uptime_seconds == 0,
            s.messages_handled == 0,
            s.tool_calls_total == 0,
    {
        InstanceStatus {
            status: owned(status),
            memory_kb: 0,
            uptime_seconds: 0,
            messages_handled: 0,
            tool_calls_total: 0,
        }
    }
}

impl Default for InstanceStatus {
    /// The empty snapshot.
    fn default() -> (s: Self)
        ensures
            s.status@ == Seq::<char>::empty(),
            s.memory_kb == 0,
            s.uptime_seconds == 0,
            s.messages_handled == 0,
            s.tool_calls_total == 0,
    {
        InstanceStatus {
            status: String::new(),
            memory_kb: 0,
            uptime_seconds: 0,
            messages_handled: 0,
            tool_calls_total: 0,
        }
    }
}

/// The operations that the dispatcher offers.
#[derive(Debug, Clone, Copy, PartialEq, Eq, Structural)]
pub enum Method {
    SendMessage,
    StreamMessage,
    GetStatus,
    RecallMemory,
    UpdateConfig,
    Shutdown,
}

/// The name under which an operation is called.
pub open spec fn method_name(method: Method) -> Seq<char> {
    match method {
        Method::SendMessage => "SendMessage"@,
        Method::StreamMessage => "StreamMessage"@,
        Method::GetStatus => "GetStatus"@,
        Method::RecallMemory => "RecallMemory"@,
        Method::UpdateConfig => "UpdateConfig"@,
        Method::Shutdown => "Shutdown"@,
    }
}

/// The operation called `name`: the first of the table whose name is exactly
/// `name`, none where no name is.
pub open spec fn method_named(name: Seq<char>) -> Option<Method> {
    if name == method_name(Method::SendMessage) {
        Some(Method::SendMessage)
    } else if name == method_name(Method::StreamMessage) {
        Some(Method::StreamMessage)
    } else if name == method_name(Method::GetStatus) {
        Some(Method::GetStatus)
    } else if name == method_name(Method::RecallMemory) {
        Some(Method::RecallMemory)
    } else if name == method_name(Method::UpdateConfig) {
        Some(Method::UpdateConfig)
    } else if name == method_name(Method::Shutdown) {
        Some(Method::Shutdown)
    } else {
        None
    }
}

impl Method {
    /// The name under which the operation is called.
    pub fn name(self) -> (r: &'static str)
        ensures
            r@ == method_name(self),
    {
        match self {
            Method::SendMessage => "SendMessage",
            Method::StreamMessage => "StreamMessage",
            Method::GetStatus => "GetStatus",
            Method::RecallMemory => "RecallMemory",
            Method::UpdateConfig => "UpdateConfig",
            Method::Shutdown => "Shutdown",
        }
    }

    /// Whether the operation emits a sequence of events before it completes.
    pub fn is_streaming(self) -> (r: bool)
        ensures
            r == (self == Method::StreamMessage),
    {
        match self {
            Method::StreamMessage => true,
            _ => false,
        }
    }
}

/// The kinds of failure that a call can end in.
#[derive(Debug, Clone, Copy, PartialEq, Eq, Structural)]
pub enum ErrorKind {
    /// The payload could not be decoded.
    MalformedRequest,
    /// The ceiling passed before the reply came. The work goes on, and its
    /// late reply is dropped.
    Timeout,
    /// The link to the work queue is severed or was never made.
    NotStarted,
    /// The reply could not be encoded.
    SerializationError,
    /// The table holds no operation of that name.
    UnknownMethod,
    /// The work queue no longer takes requests.
    QueueClosed,
    /// The slot was dropped before it was fulfilled.
    SlotDropped,
    /// The processing loop answered with a failure.
    AgentFailed,
    /// The caller's emit sink refused a chunk.
    EmitFailed,
}

/// A failure as the peer receives it: its kind, the operation concerned
/// (where the failure names one) and the text.
#[derive(Debug, Clone)]
pub struct DispatchError {
    pub kind: ErrorKind,
    pub method: String,
    pub message: String,
}

/// The mathematical content of a [`DispatchError`].
pub struct ErrorView {
    pub kind: ErrorKind,
    pub method: Seq<char>,
    pub message: Seq<char>,
}

impl View for DispatchError {
    type V = ErrorView;

    open spec fn view(&self) -> ErrorView {
        ErrorView { kind: self.kind, method: self.method@, message: self.message@ }
    }
}

/// A failure that names no operation.
pub open spec fn failure(kind: ErrorKind, message: Seq<char>) -> ErrorView {
    ErrorView { kind, method: Seq::empty(), message }
}

/// The failure of a call whose payload could not be decoded: it carries the
/// name of the operation, and its text is the reason.
pub open spec fn malformed(method: Method, reason: Seq<char>) -> ErrorView {
    ErrorView { kind: ErrorKind::MalformedRequest, method: method_name(method), message: reason }
}

/// The failure of a call to an operation that the table does not hold.
pub open spec fn unknown_method(name: Seq<char>) -> ErrorView {
    ErrorView { kind: ErrorKind::UnknownMethod, method: name, message: "unknown method: "@ + name }
}

/// The failure of a call made while no link to the work queue exists.
pub open spec fn not_started(streaming: bool) -> ErrorView {
    if streaming {
        failure(ErrorKind::NotStarted, "agent not started"@)
    } else {
        failure(ErrorKind::NotStarted, "agent not started \u{2014} no sender channel available"@)
    }
}

/// The failure of a call whose reply did not come within the ceiling.
pub open spec fn timed_out(streaming: bool) -> ErrorView {
    if streaming {
        failure(ErrorKind::Timeout, "stream response timed out"@)
    } else {
        failure(ErrorKind::Timeout, "agent response timed out after 30s"@)
    }
}

/// The failure of a call that the work queue did not take.
pub open spec fn queue_closed() -> ErrorView {
    failure(ErrorKind::QueueClosed, "agent channel closed"@)
}

/// The failure of a call whose slot was dropped unfulfilled.
pub open spec fn slot_dropped() -> ErrorView {
    failure(ErrorKind::SlotDropped, "agent response channel dropped"@)
}

/// The failure of a call that the processing loop answered with a failure.
pub open spec fn agent_failed(reason: Seq<char>) -> ErrorView {
    failure(ErrorKind::AgentFailed, "agent error: "@ + reason)
}

/// The failure of a call whose reply, or one of whose chunks, could not be
/// encoded.
pub open spec fn serialization_failed(reason: Seq<char>) -> ErrorView {
    failure(ErrorKind::SerializationError, "serialization error: "@ + reason)
}

/// The failure of a streaming call whose sink refused a chunk.
pub open spec fn emit_failed(reason: Seq<char>) -> ErrorView {
    failure(ErrorKind::EmitFailed, reason)
}

impl DispatchError {
    /// The service that every failure of the dispatcher names.
    pub fn service(&self) -> (r: &'static str)
        ensures
            r@ == "ZeroClawService"@,
    {
        "ZeroClawService"
    }

    /// The code that every failure of the dispatcher carries.
    pub fn code(&self) -> (r: &'static str)
        ensures
            r@ == "HANDLER_ERROR"@,
    {
        "HANDLER_ERROR"
    }

    fn plain(kind: ErrorKind, message: String) -> (e: Self)
        ensures
            e@ == failure(kind, message@),
    {
        DispatchError { kind, method: String::new(), message }
    }

    /// See [`malformed`].
    pub fn malformed(method: Method, reason: String) -> (e: Self)
        ensures
            e@ == malformed(method, reason@),
    {
        DispatchError { kind: ErrorKind::MalformedRequest, method: owned(method.name()), message: reason }
    }

    /// See [`unknown_method`].
    pub fn unknown_method(name: &str) -> (e: Self)
        ensures
            e@ == unknown_method(name@),
    {
        DispatchError {
            kind: ErrorKind::UnknownMethod,
            method: owned(name),
            message: joined("unknown method: ", name),
        }
    }

    /// See [`not_started`].
    pub fn not_started(streaming: bool) -> (e: Self)
        ensures
            e@ == not_started(streaming),
    {
        if streaming {
            Self::plain(ErrorKind::NotStarted, owned("agent not started"))
        } else {
            Self::plain(
                ErrorKind::NotStarted,
                owned("agent not started \u{2014} no sender channel available"),
            )
        }
    }

    /// See [`timed_out`].
    pub fn timed_out(streaming: bool) -> (e: Self)
        ensures
            e@ == timed_out(streaming),
    {
        if streaming {
            Self::plain(ErrorKind::Timeout, owned("stream response timed out"))
        } else {
            Self::plain(ErrorKind::Timeout, owned("agent response timed out after 30s"))
        }
    }

    /// See [`queue_closed`].
    pub fn queue_closed() -> (e: Self)
        ensures
            e@ == queue_closed(),
    {
        Self::plain(ErrorKind::QueueClosed, owned("agent channel closed"))
    }

    /// See [`slot_dropped`].
    pub fn slot_dropped() -> (e: Self)
        ensures
            e@ == slot_dropped(),
    {
        Self::plain(ErrorKind::SlotDropped, owned("agent response channel dropped"))
    }

    /// See [`agent_failed`].
    pub fn agent_failed(reason: &str) -> (e: Self)
        ensures
            e@ == agent_failed(reason@),
    {
        Self::plain(ErrorKind::AgentFailed, joined("agent error: ", reason))
    }

    /// See [`serialization_failed`].
    pub fn serialization_failed(reason: &str) -> (e: Self)
        ensures
            e@ == serialization_failed(reason@),
    {
        Self::plain(ErrorKind::SerializationError, joined("serialization error: ", reason))
    }

    /// See [`emit_failed`].
    pub fn emit_failed(reason: String) -> (e: Self)
        ensures
            e@ == emit_failed(reason@),
    {
        Self::plain(ErrorKind::EmitFailed, reason)
    }
}

/// Looks an operation up by its name. The name must match in full: no prefix
/// and no other spelling is taken for it.
pub fn resolve_method(name: &str) -> (r: Result<Method, DispatchError>)
    ensures
        match r {
            Ok(m) => method_named(name@) == Some(m),
            Err(e) => method_named(name@) is None && e@ == unknown_method(name@),
        },
{
    if str_eq(name, "SendMessage") {
        Ok(Method::SendMessage)
    } else if str_eq(name, "StreamMessage") {
        Ok(Method::StreamMessage)
    } else if str_eq(name, "GetStatus") {
        Ok(Method::GetStatus)
    } else if str_eq(name, "RecallMemory") {
        Ok(Method::RecallMemory)
    } else if str_eq(name, "UpdateConfig") {
        Ok(Method::UpdateConfig)
    } else if str_eq(name, "Shutdown") {
        Ok(Method::Shutdown)
    } else {
        Err(DispatchError::unknown_method(name))
    }
}

/// The payload of a call as decoding left it: the request, or the reason why
/// the bytes are none. A failure to decode ends the call as malformed.
pub fn decoded<T>(method: Method, payload: Result<T, String>) -> (r: Result<T, DispatchError>)
    ensures
        match (payload, r) {
            (Ok(p), Ok(q)) => p == q,
            (Err(reason), Err(e)) => e@ == malformed(method, reason@),
            _ => false,
        },
{
    match payload {
        Ok(p) => Ok(p),
        Err(reason) => Err(DispatchError::malformed(method, reason)),
    }
}

/// The reply of a call as encoding left it: the bytes, or the reason why
/// there are none. A failure to encode ends the call as a serialization
/// error.
pub fn encoded(reply: Result<Vec<u8>, String>) -> (r: Result<Vec<u8>, DispatchError>)
    ensures
        match (reply, r) {
            (Ok(b), Ok(c)) => b == c,
            (Err(reason), Err(e)) => e@ == serialization_failed(reason@),
            _ => false,
        },
{
    match reply {
        Ok(b) => Ok(b),
        Err(reason) => Err(DispatchError::serialization_failed(reason.as_str())),
    }
}

/// What the wait for a reply brought.
#[derive(Debug)]
pub enum WaitOutcome {
    /// The processing loop fulfilled the slot with a response.
    Resolved(AgentResponse),
    /// The processing loop fulfilled the slot with a failure.
    Failed(String),
    /// The slot was dropped unfulfilled.
    SlotDropped,
    /// The ceiling passed first.
    TimedOut,
}

/// The reply to `SendMessage`.
#[derive(Debug, Clone)]
pub struct SendMessageResponse {
    pub response: String,
    pub session_id: String,
    pub tool_calls: Vec<ToolCallRecord>,
    pub duration_ms: i64,
    pub metadata: Vec<(String, String)>,
}

/// The reply to `GetStatus`.
#[derive(Debug, Clone)]
pub struct GetStatusResponse {
    pub session_id: String,
    pub status: String,
    pub model: String,
    pub uptime_ms: i64,
    pub messages_processed: i32,
    pub tool_calls_made: i32,
    pub memory_usage_bytes: i64,
    pub config: Vec<(String, String)>,
    pub metadata: Vec<(String, String)>,
}

/// The reply to `Shutdown`.
#[derive(Debug, Clone, Copy, PartialEq, Eq, Structural)]
pub struct ShutdownSummary {
    pub shutdown: bool,
    pub messages_processed: i32,
    pub uptime_ms: i64,
}

/// The number of tool calls of one response as the counter takes it: the
/// number itself, capped at the largest value the counter's type holds.
pub open spec fn tool_call_count(n: nat) -> i32 {
    if n > i32::MAX {
        i32::MAX
    } else {
        n as i32
    }
}

/// The time, in milliseconds, between `started` and `now`: zero where the
/// clock went backwards, capped at the largest value the reply holds.
pub open spec fn uptime_between(started: u64, now: u64) -> i64 {
    if now <= started {
        0
    } else if now - started > i64::MAX {
        i64::MAX
    } else {
        (now - started) as i64
    }
}

/// Resident memory in bytes from kilobytes, capped at the largest value the
/// reply holds.
pub open spec fn memory_bytes(kb: u64) -> i64 {
    if kb * 1024 > i64::MAX {
        i64::MAX
    } else {
        (kb * 1024) as i64
    }
}

/// Time units for which a call waits for its reply: a unary call from the
/// moment it is queued, a streaming call from the moment its relay closes.
pub open spec fn call_ceiling(streaming: bool) -> u64 {
    if streaming {
        STREAM_CEILING
    } else {
        UNARY_CEILING
    }
}

/// The capacity of the relay queue of a call: a unary call has none.
pub open spec fn relay_capacity(streaming: bool) -> Option<usize> {
    if streaming {
        Some(RELAY_QUEUE_CAPACITY)
    } else {
        None
    }
}

/// What a call needs to get under way.
#[derive(Debug)]
pub struct CallStart<'a, Tx> {
    /// The link to the work queue.
    pub sender: &'a Tx,
    /// Time units to wait for the reply.
    pub ceiling: u64,
    /// The capacity of the relay queue to open, for a streaming call.
    pub relay_capacity: Option<usize>,
}

/// The dispatcher's state: the link to the work queue, the status snapshot,
/// the instant it started at and the two counters. `Tx` is the sending end of
/// the work queue.
#[derive(Debug)]
pub struct ZeroClawEdgeService<Tx> {
    agent_sender: Option<Tx>,
    status: InstanceStatus,
    started_at: u64,
    messages_handled: i32,
    tool_calls_total: i32,
}

impl<Tx> ZeroClawEdgeService<Tx> {
    /// The link to the work queue; `None` once it is severed.
    pub closed spec fn sender(&self) -> Option<Tx> {
        self.agent_sender
    }

    /// The status snapshot.
    pub closed spec fn status(&self) -> InstanceStatus {
        self.status
    }

    /// The instant, in milliseconds, at which the dispatcher started.
    pub closed spec fn started_at(&self) -> u64 {
        self.started_at
    }

    /// How many calls were answered.
    pub closed spec fn messages_handled(&self) -> i32 {
        self.messages_handled
    }

    /// How many tool calls the answered calls made.
    pub closed spec fn tool_calls_total(&self) -> i32 {
        self.tool_calls_total
    }

    /// A dispatcher linked to the work queue through `sender`, started at
    /// `now_ms`, with the status `initializing` and nothing counted.
    pub fn new(sender: Tx, now_ms: u64) -> (service: Self)
        ensures
            service.sender() == Some(sender),
            service.status().status@ == "initializing"@,
            service.status().memory_kb == 0,
            service.status().uptime_seconds == 0,
            service.status().messages_handled == 0,
            service.status().tool_calls_total == 0,
            service.started_at() == now_ms,
            service.messages_handled() == 0,
            service.tool_calls_total() == 0,
    {
        ZeroClawEdgeService {
            agent_sender: Some(sender),
            status: InstanceStatus::with_status("initializing"),
            started_at: now_ms,
            messages_handled: 0,
            tool_calls_total: 0,
        }
    }

    /// Replaces the status snapshot as a whole.
    pub fn update_status(&mut self, new_status: InstanceStatus)
        ensures
            final(self).status() == new_status,
            final(self).sender() == old(self).sender(),
            final(self).started_at() == old(self).started_at(),
            final(self).messages_handled() == old(self).messages_handled(),
            final(self).tool_calls_total() == old(self).tool_calls_total(),
    {
        self.status = new_status;
    }

    /// Starts a call: hands out the link to the work queue on which to queue
    /// the request, and says how long to wait for the reply and, for a
    /// streaming call, how many chunks the relay queue holds. A call made
    /// while there is no link fails at once, without any wait.
    pub fn begin_call(&self, streaming: bool) -> (r: Result<CallStart<'_, Tx>, DispatchError>)
        ensures
            match r {
                Ok(start) => {
                    &&& self.sender() == Some(*start.sender)
                    &&& start.ceiling == call_ceiling(streaming)
                    &&& start.relay_capacity == relay_capacity(streaming)
                },
                Err(e) => self.sender() is None && e@ == not_started(streaming),
            },
    {
        match &self.agent_sender {
            Some(sender) => Ok(
                CallStart {
                    sender,
                    ceiling: if streaming {
                        STREAM_CEILING
                    } else {
                        UNARY_CEILING
                    },
                    relay_capacity: if streaming {
                        Some(RELAY_QUEUE_CAPACITY)
                    } else {
                        None
                    },
                },
            ),
            None => Err(DispatchError::not_started(streaming)),
        }
    }

    /// Counts one answered call.
    fn count_message(&mut self)
        ensures
            final(self).messages_handled() == old(self).messages_handled().wrapping_add(1),
            final(self).tool_calls_total() == old(self).tool_calls_total(),
            final(self).sender() == old(self).sender(),
            final(self).status() == old(self).status(),
            final(self).started_at() == old(self).started_at(),
    {
        self.messages_handled = self.messages_handled.wrapping_add(1);
    }

    /// Ends a unary call with what the wait for its reply brought. A response
    /// is counted (one call, and the tool calls it made) and handed on; a
    /// timeout, a dropped slot and a failure of the processing loop each end
    /// the call with the failure of that kind and count nothing. A timeout
    /// cancels nothing: the work stays queued.
    pub fn finish_unary(&mut self, outcome: WaitOutcome) -> (r: Result<AgentResponse, DispatchError>)
        ensures
            final(self).sender() == old(self).sender(),
            final(self).status() == old(self).status(),
            final(self).started_at() == old(self).started_at(),
            match outcome {
                WaitOutcome::Resolved(resp) => {
                    &&& r == Ok::<AgentResponse, DispatchError>(resp)
                    &&& final(self).messages_handled() == old(self).messages_handled().wrapping_add(
                        1,
                    )
                    &&& final(self).tool_calls_total() == old(self).tool_calls_total().wrapping_add(
                        tool_call_count(resp.tool_calls@.len()),
                    )
                },
                _ => {
                    &&& r matches Err(e) && e@ == wait_failure(outcome, false)
                    &&& final(self).messages_handled() == old(self).messages_handled()
                    &&& final(self).tool_calls_total() == old(self).tool_calls_total()
                },
            },
    {
        match outcome {
            WaitOutcome::Resolved(resp) => {
                let n = resp.tool_calls.len();
                let made: i32 = if n > 0x7fff_ffff {
                    0x7fff_ffff
                } else {
                    n as i32
                };
                self.count_message();
                self.tool_calls_total = self.tool_calls_total.wrapping_add(made);
                Ok(resp)
            },
            WaitOutcome::Failed(reason) => Err(DispatchError::agent_failed(reason.as_str())),
            WaitOutcome::SlotDropped => Err(DispatchError::slot_dropped()),
            WaitOutcome::TimedOut => Err(DispatchError::timed_out(false)),
        }
    }

    /// Ends a `SendMessage` call: the reply carries the response and the tool
    /// calls of the processing loop, and the session of the request.
    pub fn send_message(&mut self, session_id: String, outcome: WaitOutcome) -> (r: Result<
        SendMessageResponse,
        DispatchError,
    >)
        ensures
            final(self).sender() == old(self).sender(),
            final(self).status() == old(self).status(),
            final(self).started_at() == old(self).started_at(),
            match outcome {
                WaitOutcome::Resolved(resp) => {
                    &&& r matches Ok(reply) && reply.response == resp.response && reply.session_id
                        == session_id && reply.tool_calls == resp.tool_calls && reply.duration_ms
                        == 0 && reply.metadata@.len() == 0
                    &&& final(self).messages_handled() == old(self).messages_handled().wrapping_add(
                        1,
                    )
                    &&& final(self).tool_calls_total() == old(self).tool_calls_total().wrapping_add(
                        tool_call_count(resp.tool_calls@.len()),
                    )
                },
                _ => {
                    &&& r matches Err(e) && e@ == wait_failure(outcome, false)
                    &&& final(self).messages_handled() == old(self).messages_handled()
                    &&& final(self).tool_calls_total() == old(self).tool_calls_total()
                },
            },
    {
        match self.finish_unary(outcome) {
            Ok(resp) => Ok(
                SendMessageResponse {
                    response: resp.response,
                    session_id,
                    tool_calls: resp.tool_calls,
                    duration_ms: 0,
                    metadata: Vec::new(),
                },
            ),
            Err(e) => Err(e),
        }
    }

    fn uptime_ms(&self, now_ms: u64) -> (r: i64)
        ensures
            r == uptime_between(self.started_at(), now_ms),
    {
        if now_ms <= self.started_at {
            0
        } else {
            let d = now_ms - self.started_at;
            if d > 0x7fff_ffff_ffff_ffff {
                0x7fff_ffff_ffff_ffff
            } else {
                d as i64
            }
        }
    }

    /// Answers `GetStatus` at the instant `now_ms`, for a process whose
    /// resident memory is `memory_kb` kilobytes.
    pub fn get_status(&self, now_ms: u64, memory_kb: u64) -> (r: GetStatusResponse)
        ensures
            r.status@ == self.status().status@,
            r.uptime_ms == uptime_between(self.started_at(), now_ms),
            r.messages_processed == self.messages_handled(),
            r.tool_calls_made == self.tool_calls_total(),
            r.memory_usage_bytes == memory_bytes(memory_kb),
            r.session_id@.len() == 0,
            r.model@.len() == 0,
            r.config@.len() == 0,
            r.metadata@.len() == 0,
    {
        let memory_usage_bytes: i64 = if memory_kb > 0x1f_ffff_ffff_ffff {
            0x7fff_ffff_ffff_ffff
        } else {
            (memory_kb * 1024) as i64
        };
        GetStatusResponse {
            session_id: String::new(),
            status: self.status.status.clone(),
            model: String::new(),
            uptime_ms: self.uptime_ms(now_ms),
            messages_processed: self.messages_handled,
            tool_calls_made: self.tool_calls_total,
            memory_usage_bytes,
            config: Vec::new(),
            metadata: Vec::new(),
        }
    }

    /// Answers `Shutdown` at the instant `now_ms`: the status text becomes
    /// `stopping` and the link to the work queue is severed, so that later
    /// calls fail at once. The sender that made the link is dropped.
    pub fn shutdown(&mut self, now_ms: u64) -> (r: ShutdownSummary)
        ensures
            final(self).sender() is None,
            final(self).status().status@ == "stopping"@,
            final(self).status().memory_kb == old(self).status().memory_kb,
            final(self).status().uptime_seconds == old(self).status().uptime_seconds,
            final(self).status().messages_handled == old(self).status().messages_handled,
            final(self).status().tool_calls_total == old(self).status().tool_calls_total,
            final(self).started_at() == old(self).started_at(),
            final(self).messages_handled() == old(self).messages_handled(),
            final(self).tool_calls_total() == old(self).tool_calls_total(),
            r.shutdown,
            r.messages_processed == old(self).messages_handled(),
            r.uptime_ms == uptime_between(old(self).started_at(), now_ms),
    {
        self.status.status = owned("stopping");
        self.agent_sender = None;
        ShutdownSummary {
            shutdown: true,
            messages_processed: self.messages_handled,
            uptime_ms: self.uptime_ms(now_ms),
        }
    }
}

/// The failure that ends a call whose wait did not bring a response.
pub open spec fn wait_failure(outcome: WaitOutcome, streaming: bool) -> ErrorView {
    match outcome {
        WaitOutcome::Failed(reason) => agent_failed(reason@),
        WaitOutcome::SlotDropped => slot_dropped(),
        _ => timed_out(streaming),
    }
}

/// How many memories a recall asks for: the limit of the request where it is
/// positive, else ten.
pub open spec fn recall_limit_of(limit: i32) -> nat {
    if limit > 0 {
        limit as nat
    } else {
        10
    }
}

/// The number of memories to ask the store for.
pub fn recall_limit(limit: i32) -> (r: usize)
    ensures
        r == recall_limit_of(limit),
{
    if limit > 0 {
        limit as usize
    } else {
        10
    }
}

impl<Slot, Sink> AgentRequest<Slot, Sink> {
    /// The request of a unary call: no sink is attached.
    pub fn unary(message: String, channel: String, metadata: Vec<(String, String)>, slot: Slot) -> (r:
        Self)
        ensures
            r.message == message,
            r.channel == channel,
            r.metadata == metadata,
            r.response_tx == slot,
            r.stream_delta_tx is None,
    {
        AgentRequest { message, channel, metadata, response_tx: slot, stream_delta_tx: None }
    }

    /// The request of a streaming call: `sink` is the sending end of the
    /// relay queue, which the processing loop feeds with chunks and closes.
    pub fn streaming(
        message: String,
        channel: String,
        metadata: Vec<(String, String)>,
        slot: Slot,
        sink: Sink,
    ) -> (r: Self)
        ensures
            r.message == message,
            r.channel == channel,
            r.metadata == metadata,
            r.response_tx == slot,
            r.stream_delta_tx == Some(sink),
    {
        AgentRequest { message, channel, metadata, response_tx: slot, stream_delta_tx: Some(sink) }
    }
}

/// Where a streaming call stands.
#[derive(Debug, Clone, Copy, PartialEq, Eq, Structural)]
pub enum StreamPhase {
    /// Chunks are read from the relay and forwarded.
    Relaying,
    /// The relay has closed; the terminal result is awaited.
    AwaitingFinal,
    /// The call completed.
    Done,
    /// The call failed.
    Failed,
}

/// What the caller reports to a streaming call.
#[derive(Debug)]
pub enum StreamEvent {
    /// The relay delivered a chunk.
    Chunk(serde_json::Value),
    /// The emit sink refused the chunk last handed to it.
    EmitRefused(String),
    /// The relay is closed and drained.
    RelayClosed,
    /// The wait for the terminal result is over.
    Final(WaitOutcome),
}

/// What a streaming call asks the caller to do.
#[derive(Debug)]
pub enum StreamAction {
    /// Hand these bytes to the emit sink, then read the relay again.
    Emit(Vec<u8>),
    /// Wait for the terminal result, for at most so many time units.
    AwaitFinal { ceiling: u64 },
    /// Let so many milliseconds pass, then return success.
    Complete { settle_ms: u64 },
    /// Return this failure.
    Fail(DispatchError),
    /// Nothing: the event did not belong to the current phase.
    Ignore,
}

/// The mathematical content of a [`StreamAction`].
pub enum ActionView {
    Emit(Seq<u8>),
    AwaitFinal { ceiling: u64 },
    Complete { settle_ms: u64 },
    Fail(ErrorView),
    Ignore,
}

impl View for StreamAction {
    type V = ActionView;

    open spec fn view(&self) -> ActionView {
        match *self {
            StreamAction::Emit(bytes) => ActionView::Emit(bytes@),
            StreamAction::AwaitFinal { ceiling } => ActionView::AwaitFinal { ceiling },
            StreamAction::Complete { settle_ms } => ActionView::Complete { settle_ms },
            StreamAction::Fail(e) => ActionView::Fail(e@),
            StreamAction::Ignore => ActionView::Ignore,
        }
    }
}

/// The transition relation of a streaming call. Every chunk is forwarded as
/// its JSON text, at once and so in the order of arrival. The terminal result
/// counts only once the relay has closed: closure of the relay alone does not
/// complete the call, and a result cannot complete it before.
pub open spec fn stream_step(phase: StreamPhase, event: StreamEvent) -> (StreamPhase, ActionView) {
    match (phase, event) {
        (StreamPhase::Relaying, StreamEvent::Chunk(value)) => match json_text(value) {
            Some(text) => (StreamPhase::Relaying, ActionView::Emit(text)),
            None => (
                StreamPhase::Failed,
                ActionView::Fail(serialization_failed("chunk is not serializable"@)),
            ),
        },
        (StreamPhase::Relaying, StreamEvent::EmitRefused(reason)) => (
            StreamPhase::Failed,
            ActionView::Fail(emit_failed(reason@)),
        ),
        (StreamPhase::Relaying, StreamEvent::RelayClosed) => (
            StreamPhase::AwaitingFinal,
            ActionView::AwaitFinal { ceiling: STREAM_CEILING },
        ),
        (StreamPhase::AwaitingFinal, StreamEvent::Final(outcome)) => match outcome {
            WaitOutcome::Resolved(_) => (
                StreamPhase::Done,
                ActionView::Complete { settle_ms: SETTLE_DELAY_MS },
            ),
            _ => (StreamPhase::Failed, ActionView::Fail(wait_failure(outcome, true))),
        },
        _ => (phase, ActionView::Ignore),
    }
}

/// One streaming call.
#[derive(Debug, Clone, Copy)]
pub struct StreamCall {
    phase: StreamPhase,
}

impl StreamCall {
    /// The current phase.
    pub closed spec fn phase(&self) -> StreamPhase {
        self.phase
    }

    /// A call whose request was queued: the relay is read.
    pub fn new() -> (c: Self)
        ensures
            c.phase() == StreamPhase::Relaying,
    {
        StreamCall { phase: StreamPhase::Relaying }
    }

    /// The phase the call is in.
    pub fn current_phase(&self) -> (p: StreamPhase)
        ensures
            p == self.phase(),
    {
        self.phase
    }

    /// Takes one event and returns what to do next. The call is counted on
    /// the dispatcher when its terminal result is a response: once per call,
    /// however many chunks it forwarded.
    pub fn step<Tx>(&mut self, event: StreamEvent, service: &mut ZeroClawEdgeService<Tx>) -> (action:
        StreamAction)
        ensures
            (final(self).phase(), action@) == stream_step(old(self).phase(), event),
            final(service).messages_handled() == (if final(self).phase() == StreamPhase::Done
                && old(self).phase() != StreamPhase::Done {
                old(service).messages_handled().wrapping_add(1)
            } else {
                old(service).messages_handled()
            }),
            final(service).tool_calls_total() == old(service).tool_calls_total(),
            final(service).sender() == old(service).sender(),
            final(service).status() == old(service).status(),
            final(service).started_at() == old(service).started_at(),
    {
        match (self.phase, event) {
            (StreamPhase::Relaying, StreamEvent::Chunk(value)) => match json_to_vec(&value) {
                Ok(bytes) => StreamAction::Emit(bytes),
                Err(_) => {
                    self.phase = StreamPhase::Failed;
                    StreamAction::Fail(
                        DispatchError::serialization_failed("chunk is not serializable"),
                    )
                },
            },
            (StreamPhase::Relaying, StreamEvent::EmitRefused(reason)) => {
                self.phase = StreamPhase::Failed;
                StreamAction::Fail(DispatchError::emit_failed(reason))
            },
            (StreamPhase::Relaying, StreamEvent::RelayClosed) => {
                self.phase = StreamPhase::AwaitingFinal;
                StreamAction::AwaitFinal { ceiling: STREAM_CEILING }
            },
            (StreamPhase::AwaitingFinal, StreamEvent::Final(outcome)) => match outcome {
                WaitOutcome::Resolved(_) => {
                    self.phase = StreamPhase::Done;
                    service.count_message();
                    StreamAction::Complete { settle_ms: SETTLE_DELAY_MS }
                },
                WaitOutcome::Failed(reason) => {
                    self.phase = StreamPhase::Failed;
                    StreamAction::Fail(DispatchError::agent_failed(reason.as_str()))
                },
                WaitOutcome::SlotDropped => {
                    self.phase = StreamPhase::Failed;
                    StreamAction::Fail(DispatchError::slot_dropped())
                },
                WaitOutcome::TimedOut => {
                    self.phase = StreamPhase::Failed;
                    StreamAction::Fail(DispatchError::timed_out(true))
                },
            },
            _ => StreamAction::Ignore,
        }
    }
}

/// The phase that a call reaches from `phase` through a sequence of events,
/// and the actions it asks for on the way.
pub open spec fn stream_run(phase: StreamPhase, events: Seq<StreamEvent>) -> (
    StreamPhase,
    Seq<ActionView>,
)
    decreases events.len(),
{
    if events.len() == 0 {
        (phase, Seq::empty())
    } else {
        let before = stream_run(phase, events.drop_last());
        let last = stream_step(before.0, events.last());
        (last.0, before.1.push(last.1))
    }
}

/// Whether an event is a chunk that can be written as JSON.
pub open spec fn is_good_chunk(event: StreamEvent) -> bool {
    event matches StreamEvent::Chunk(value) && json_text(value) is Some
}

/// What is emitted for a chunk.
pub open spec fn emission(event: StreamEvent) -> ActionView {
    match event {
        StreamEvent::Chunk(value) => ActionView::Emit(json_text(value).unwrap()),
        _ => ActionView::Ignore,
    }
}

/// Chunks reach the caller in the order in which they were produced: a run
/// of chunks yields one emission per chunk, each holding that chunk's text,
/// in the order of the chunks, and leaves the call reading the relay.
pub proof fn law_chunks_in_order(events: Seq<StreamEvent>)
    requires
        forall|i: int| 0 <= i < events.len() ==> is_good_chunk(#[trigger] events[i]),
    ensures
        stream_run(StreamPhase::Relaying, events).0 == StreamPhase::Relaying,
        stream_run(StreamPhase::Relaying, events).1 == events.map_values(
            |e: StreamEvent| emission(e),
        ),
    decreases events.len(),
{
    if events.len() > 0 {
        let head = events.drop_last();
        assert forall|i: int| 0 <= i < head.len() implies is_good_chunk(#[trigger] head[i]) by {
            assert(head[i] == events[i]);
        }
        law_chunks_in_order(head);
        assert(is_good_chunk(events[events.len() - 1]));
        assert(stream_run(StreamPhase::Relaying, events).1 =~= events.map_values(
            |e: StreamEvent| emission(e),
        ));
    } else {
        assert(stream_run(StreamPhase::Relaying, events).1 =~= events.map_values(
            |e: StreamEvent| emission(e),
        ));
    }
}

/// Whether an action starts the terminal wait or completes the call.
pub open spec fn concludes(action: ActionView) -> bool {
    action is AwaitFinal || action is Complete
}

/// The terminal wait begins only when the relay has closed, and only it can
/// complete the call: as long as no event reports the relay closed, the call
/// neither awaits its terminal result nor completes, whatever else is
/// reported, a terminal result included.
pub proof fn law_completion_needs_closed_relay(events: Seq<StreamEvent>)
    requires
        forall|i: int| 0 <= i < events.len() ==> !((#[trigger] events[i]) is RelayClosed),
    ensures
        ({
            let run = stream_run(StreamPhase::Relaying, events);
            &&& run.0 == StreamPhase::Relaying || run.0 == StreamPhase::Failed
            &&& forall|i: int| 0 <= i < run.1.len() ==> !concludes(#[trigger] run.1[i])
        }),
    decreases events.len(),
{
    if events.len() > 0 {
        let head = events.drop_last();
        assert forall|i: int| 0 <= i < head.len() implies !((#[trigger] head[i]) is RelayClosed) by {
            assert(head[i] == events[i]);
        }
        law_completion_needs_closed_relay(head);
        assert(!(events[events.len() - 1] is RelayClosed));
    }
}

/// Once the relay has closed, the outcome of the terminal wait decides the
/// call: a response completes it after the settling delay, and a wait that
/// brings none within the ceiling fails it as timed out.
pub proof fn law_terminal_wait_decides(events: Seq<StreamEvent>, outcome: WaitOutcome)
    requires
        forall|i: int| 0 <= i < events.len() ==> is_good_chunk(#[trigger] events[i]),
    ensures
        ({
            let run = stream_run(
                StreamPhase::Relaying,
                events.push(StreamEvent::RelayClosed).push(StreamEvent::Final(outcome)),
            );
            &&& run.1.len() == events.len() + 2
            &&& run.1[events.len() as int] == (ActionView::AwaitFinal { ceiling: STREAM_CEILING })
            &&& outcome is Resolved ==> run.0 == StreamPhase::Done && run.1.last() == (
            ActionView::Complete { settle_ms: SETTLE_DELAY_MS })
            &&& outcome is TimedOut ==> run.0 == StreamPhase::Failed && run.1.last()
                == ActionView::Fail(timed_out(true))
        }),
{
    law_chunks_in_order(events);
    let closed = events.push(StreamEvent::RelayClosed);
    let all = closed.push(StreamEvent::Final(outcome));
    assert(all.drop_last() == closed);
    assert(closed.drop_last() == events);
    assert(closed.last() is RelayClosed);
    assert(all.last() == StreamEvent::Final(outcome));
    let r0 = stream_run(StreamPhase::Relaying, events);
    let r1 = stream_run(StreamPhase::Relaying, closed);
    let r2 = stream_run(StreamPhase::Relaying, all);
    assert(r1.0 == StreamPhase::AwaitingFinal);
    assert(r1.1 == r0.1.push(ActionView::AwaitFinal { ceiling: STREAM_CEILING }));
    assert(r2.1 == r1.1.push(stream_step(StreamPhase::AwaitingFinal, all.last()).1));
}

/// The request of `UpdateConfig`: the settings to override, by name, and
/// whether the caller asks for a restart.
#[derive(Debug, Clone)]
pub struct ConfigUpdateRequest {
    pub config: Vec<(String, String)>,
    pub restart: bool,
}

/// The reply to `UpdateConfig`.
#[derive(Debug, Clone)]
pub struct ConfigUpdateResponse {
    pub applied: bool,
    pub effective_config: Vec<(String, String)>,
    pub restart_required: bool,
}

/// The settings that an `UpdateConfig` call changes in the processing loop.
/// The temperature is kept as the text the caller gave.
#[derive(Debug, Clone)]
pub struct RuntimeConfigUpdate {
    pub model: Option<String>,
    pub temperature: Option<String>,
    pub max_tool_iterations: Option<usize>,
    pub auto_save: Option<bool>,
}

/// The mathematical content of a [`RuntimeConfigUpdate`].
pub struct ConfigUpdateView {
    pub model: Option<Seq<char>>,
    pub temperature: Option<Seq<char>>,
    pub max_tool_iterations: Option<usize>,
    pub auto_save: Option<bool>,
}

impl View for RuntimeConfigUpdate {
    type V = ConfigUpdateView;

    open spec fn view(&self) -> ConfigUpdateView {
        ConfigUpdateView {
            model: match self.model {
                Some(m) => Some(m@),
                None => None,
            },
            temperature: match self.temperature {
                Some(t) => Some(t@),
                None => None,
            },
            max_tool_iterations: self.max_tool_iterations,
            auto_save: self.auto_save,
        }
    }
}

/// The update that a map of overrides asks for. `model` is taken as it is;
/// `temperature` where the caller found it to be a number;
/// `max_tool_iterations` where it is an unsigned decimal numeral that fits
/// the machine word; `auto_save` where it is `true` or `false`. An override
/// that does not read as its setting's type is passed over, as is any other
/// name.
pub open spec fn config_update_of(
    config: Seq<(Seq<char>, Seq<char>)>,
    temperature_valid: bool,
) -> ConfigUpdateView {
    ConfigUpdateView {
        model: member(config, "model"@),
        temperature: if temperature_valid {
            member(config, "temperature"@)
        } else {
            None
        },
        max_tool_iterations: match member(config, "max_tool_iterations"@) {
            Some(text) => match parsed_decimal(text, usize::MAX as u64) {
                Some(n) => Some(n as usize),
                None => None,
            },
            None => None,
        },
        auto_save: match member(config, "auto_save"@) {
            Some(text) => parsed_bool(text),
            None => None,
        },
    }
}

/// Whether an update changes any setting.
pub open spec fn changes_something(update: ConfigUpdateView) -> bool {
    update.model is Some || update.temperature is Some || update.max_tool_iterations is Some
        || update.auto_save is Some
}

/// Answers `UpdateConfig`. `temperature_valid` says whether the override
/// named `temperature`, if there is one, reads as a number. The update comes
/// back for the caller to queue where it changes something; the reply says
/// whether it does, and repeats the restart flag of the request.
pub fn update_config(request: &ConfigUpdateRequest, temperature_valid: bool) -> (r: (
    Option<RuntimeConfigUpdate>,
    ConfigUpdateResponse,
))
    ensures
        ({
            let update = config_update_of(members_view(request.config@), temperature_valid);
            &&& r.1.applied == changes_something(update)
            &&& r.1.restart_required == request.restart
            &&& r.1.effective_config@.len() == 0
            &&& match r.0 {
                Some(u) => changes_something(update) && u@ == update,
                None => !changes_something(update),
            }
        }),
{
    let model = match lookup(&request.config, "model") {
        Some(m) => Some(m.clone()),
        None => None,
    };
    let temperature = if temperature_valid {
        match lookup(&request.config, "temperature") {
            Some(t) => Some(t.clone()),
            None => None,
        }
    } else {
        None
    };
    let max_tool_iterations = match lookup(&request.config, "max_tool_iterations") {
        Some(text) => match parse_decimal(text.as_str(), usize::MAX as u64) {
            Some(n) => Some(n as usize),
            None => None,
        },
        None => None,
    };
    let auto_save = match lookup(&request.config, "auto_save") {
        Some(text) => parse_bool(text.as_str()),
        None => None,
    };
    let applied = model.is_some() || temperature.is_some() || max_tool_iterations.is_some()
        || auto_save.is_some();
    let response = ConfigUpdateResponse {
        applied,
        effective_config: Vec::new(),
        restart_required: request.restart,
    };
    if applied {
        (Some(RuntimeConfigUpdate { model, temperature, max_tool_iterations, auto_save }), response)
    } else {
        (None, response)
    }
}

impl AgentResponse {
    /// The response of a turn that produced `text`: no tool calls are
    /// recorded and no iterations counted.
    pub fn from_text(text: String) -> (r: Self)
        ensures
            r.response == text,
            r.tool_calls@.len() == 0,
            r.iterations == 0,
    {
        AgentResponse { response: text, tool_calls: Vec::new(), iterations: 0 }
    }
}

} // verus!
