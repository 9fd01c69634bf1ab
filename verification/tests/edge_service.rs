use dink_bridge::edge_service::{
    decoded, encoded, recall_limit, resolve_method, update_config, AgentRequest, AgentResponse,
    ConfigUpdateRequest, DispatchError, ErrorKind, InstanceStatus, Method, StreamAction,
    StreamCall, StreamEvent, StreamPhase, WaitOutcome, ZeroClawEdgeService,
    AGENT_QUEUE_CAPACITY, CONFIG_QUEUE_CAPACITY, RELAY_QUEUE_CAPACITY, SETTLE_DELAY_MS,
    STREAM_CEILING, UNARY_CEILING,
};
use dink_bridge::messages::ToolCallRecord;

fn call(name: &str) -> ToolCallRecord {
    ToolCallRecord {
        name: name.to_string(),
        args: "{}".to_string(),
        result: "ok".to_string(),
        success: true,
    }
}

fn response(text: &str, calls: usize) -> AgentResponse {
    AgentResponse {
        response: text.to_string(),
        tool_calls: (0..calls).map(|i| call(&format!("tool{i}"))).collect(),
        iterations: 0,
    }
}

#[test]
fn unary_send_message_returns_the_processors_response() {
    let mut service = ZeroClawEdgeService::new("queue", 0);
    let start = service.begin_call(false).expect("the service is linked");
    assert_eq!(*start.sender, "queue");
    assert_eq!(start.ceiling, 30);
    assert_eq!(start.relay_capacity, None);
    let request: AgentRequest<u8, ()> =
        AgentRequest::unary("hello".to_string(), "s-1".to_string(), Vec::new(), 1);
    assert_eq!(request.message, "hello");
    assert!(request.metadata.is_empty());
    assert!(request.stream_delta_tx.is_none());

    let resolved = WaitOutcome::Resolved(response("hi there", 0));
    let resp = service.finish_unary(resolved).expect("the call was answered");
    assert_eq!(resp.response, "hi there");
    assert_eq!(resp.iterations, 0);
    assert!(resp.tool_calls.is_empty());

    let status = service.get_status(0, 0);
    assert_eq!(status.messages_processed, 1);
    assert_eq!(status.tool_calls_made, 0);
}

#[test]
fn send_message_reply_carries_session_and_tool_calls() {
    let mut service = ZeroClawEdgeService::new((), 0);
    let reply = service
        .send_message("s-9".to_string(), WaitOutcome::Resolved(response("done", 2)))
        .unwrap();
    assert_eq!(reply.response, "done");
    assert_eq!(reply.session_id, "s-9");
    assert_eq!(reply.tool_calls.len(), 2);
    assert_eq!(reply.tool_calls[1].name, "tool1");
    assert_eq!(reply.duration_ms, 0);
    assert!(reply.metadata.is_empty());
    let status = service.get_status(0, 0);
    assert_eq!((status.messages_processed, status.tool_calls_made), (1, 2));
}

#[test]
fn call_without_processor_link_fails_at_once() {
    let mut service = ZeroClawEdgeService::new((), 0);
    service.shutdown(0);
    let err = service.begin_call(false).unwrap_err();
    assert_eq!(err.kind, ErrorKind::NotStarted);
    assert_eq!(err.message, "agent not started \u{2014} no sender channel available");
    assert_eq!(err.method, "");
    assert_eq!(err.service(), "ZeroClawService");
    assert_eq!(err.code(), "HANDLER_ERROR");
    let err = service.begin_call(true).unwrap_err();
    assert_eq!(err.kind, ErrorKind::NotStarted);
    assert_eq!(err.message, "agent not started");
}

#[test]
fn unary_timeout_counts_nothing_and_leaves_the_link() {
    let mut service = ZeroClawEdgeService::new(5u8, 0);
    let err = service.finish_unary(WaitOutcome::TimedOut).unwrap_err();
    assert_eq!(err.kind, ErrorKind::Timeout);
    assert_eq!(err.message, "agent response timed out after 30s");
    assert_eq!(service.get_status(0, 0).messages_processed, 0);
    assert_eq!(service.begin_call(false).ok().map(|s| *s.sender), Some(5u8));
    assert_eq!(UNARY_CEILING, 30);
}

#[test]
fn unary_failures_have_their_own_kinds() {
    let mut service = ZeroClawEdgeService::new((), 0);
    let err = service.finish_unary(WaitOutcome::SlotDropped).unwrap_err();
    assert_eq!((err.kind, err.message.as_str()), (ErrorKind::SlotDropped, "agent response channel dropped"));
    let err = service.finish_unary(WaitOutcome::Failed("model offline".to_string())).unwrap_err();
    assert_eq!((err.kind, err.message.as_str()), (ErrorKind::AgentFailed, "agent error: model offline"));
    let err = service.send_message("s".to_string(), WaitOutcome::TimedOut).unwrap_err();
    assert_eq!(err.kind, ErrorKind::Timeout);
    let err = DispatchError::queue_closed();
    assert_eq!((err.kind, err.message.as_str()), (ErrorKind::QueueClosed, "agent channel closed"));
    assert_eq!(service.get_status(0, 0).messages_processed, 0);
}

#[test]
fn counters_add_up_over_calls() {
    let mut service = ZeroClawEdgeService::new((), 0);
    service.finish_unary(WaitOutcome::Resolved(response("a", 3))).unwrap();
    service.finish_unary(WaitOutcome::TimedOut).unwrap_err();
    service.finish_unary(WaitOutcome::Resolved(response("b", 4))).unwrap();
    let status = service.get_status(0, 0);
    assert_eq!((status.messages_processed, status.tool_calls_made), (2, 7));
}

#[test]
fn method_table_matches_exact_names_only() {
    assert_eq!(resolve_method("SendMessage").ok(), Some(Method::SendMessage));
    assert_eq!(resolve_method("StreamMessage").ok(), Some(Method::StreamMessage));
    assert_eq!(resolve_method("GetStatus").ok(), Some(Method::GetStatus));
    assert_eq!(resolve_method("RecallMemory").ok(), Some(Method::RecallMemory));
    assert_eq!(resolve_method("UpdateConfig").ok(), Some(Method::UpdateConfig));
    assert_eq!(resolve_method("Shutdown").ok(), Some(Method::Shutdown));
    for name in ["Send", "SendMessages", "sendmessage", "", " SendMessage", "Shut", "ExecCommand"] {
        let err = resolve_method(name).unwrap_err();
        assert_eq!(err.kind, ErrorKind::UnknownMethod);
        assert_eq!(err.method, name);
        assert_eq!(err.message, format!("unknown method: {name}"));
    }
}

#[test]
fn method_names_round_trip() {
    for m in [
        Method::SendMessage,
        Method::StreamMessage,
        Method::GetStatus,
        Method::RecallMemory,
        Method::UpdateConfig,
        Method::Shutdown,
    ] {
        assert_eq!(resolve_method(m.name()).ok(), Some(m));
        assert_eq!(m.is_streaming(), m == Method::StreamMessage);
    }
}

#[test]
fn undecodable_payload_is_malformed() {
    let r: Result<u32, DispatchError> =
        decoded(Method::RecallMemory, Err("expected value at line 1".to_string()));
    let err = r.unwrap_err();
    assert_eq!(err.kind, ErrorKind::MalformedRequest);
    assert_eq!(err.method, "RecallMemory");
    assert_eq!(err.message, "expected value at line 1");
    assert_eq!(decoded(Method::GetStatus, Ok(7u32)).ok(), Some(7));
}

#[test]
fn unencodable_reply_is_a_serialization_error() {
    let err = encoded(Err("key must be a string".to_string())).unwrap_err();
    assert_eq!(err.kind, ErrorKind::SerializationError);
    assert_eq!(err.message, "serialization error: key must be a string");
    assert_eq!(encoded(Ok(vec![1, 2, 3])).ok(), Some(vec![1, 2, 3]));
}

#[test]
fn status_starts_initializing_and_is_replaced_wholesale() {
    let mut service = ZeroClawEdgeService::new((), 1_000);
    assert_eq!(service.get_status(1_000, 0).status, "initializing");
    service.update_status(InstanceStatus::with_status("running"));
    let s = service.get_status(4_500, 2_048);
    assert_eq!(s.status, "running");
    assert_eq!(s.uptime_ms, 3_500);
    assert_eq!(s.memory_usage_bytes, 2_048 * 1024);
    assert_eq!(s.session_id, "");
    assert_eq!(s.model, "");
    assert!(s.config.is_empty() && s.metadata.is_empty());
    let d = InstanceStatus::default();
    assert_eq!(d.status, "");
    assert_eq!((d.memory_kb, d.uptime_seconds, d.messages_handled, d.tool_calls_total), (0, 0, 0, 0));
}

#[test]
fn uptime_and_memory_are_capped() {
    let service = ZeroClawEdgeService::new((), 10);
    assert_eq!(service.get_status(5, 0).uptime_ms, 0);
    assert_eq!(service.get_status(10, 0).uptime_ms, 0);
    assert_eq!(service.get_status(u64::MAX, 0).uptime_ms, i64::MAX);
    assert_eq!(service.get_status(10, u64::MAX).memory_usage_bytes, i64::MAX);
    assert_eq!(service.get_status(10, (i64::MAX as u64) / 1024).memory_usage_bytes, i64::MAX - 1023);
    assert_eq!(service.get_status(10, (i64::MAX as u64) / 1024 + 1).memory_usage_bytes, i64::MAX);
}

#[test]
fn shutdown_marks_stopping_and_severs_the_link() {
    let mut service = ZeroClawEdgeService::new("queue", 100);
    service.finish_unary(WaitOutcome::Resolved(response("a", 1))).unwrap();
    let summary = service.shutdown(350);
    assert!(summary.shutdown);
    assert_eq!(summary.messages_processed, 1);
    assert_eq!(summary.uptime_ms, 250);
    assert_eq!(service.get_status(350, 0).status, "stopping");
    assert!(service.begin_call(false).is_err());
    assert!(service.begin_call(true).is_err());
    // A second shutdown changes nothing.
    let again = service.shutdown(400);
    assert_eq!(again.messages_processed, 1);
    assert_eq!(service.get_status(400, 0).status, "stopping");
}

fn value(text: &str) -> serde_json::Value {
    serde_json::from_str(text).unwrap()
}

#[test]
fn chunks_are_forwarded_in_production_order() {
    let mut service = ZeroClawEdgeService::new((), 0);
    let mut call = StreamCall::new();
    let chunks = ["{\"event_type\":\"delta\",\"n\":1}", "{\"n\":2}", "\"three\"", "[4]"];
    let mut emitted: Vec<Vec<u8>> = Vec::new();
    for c in chunks {
        match call.step(StreamEvent::Chunk(value(c)), &mut service) {
            StreamAction::Emit(bytes) => emitted.push(bytes),
            other => panic!("a chunk is emitted, got {other:?}"),
        }
        assert_eq!(call.current_phase(), StreamPhase::Relaying);
    }
    let expected: Vec<Vec<u8>> = chunks.iter().map(|c| c.as_bytes().to_vec()).collect();
    assert_eq!(emitted, expected);
    assert_eq!(service.get_status(0, 0).messages_processed, 0);
}

#[test]
fn terminal_wait_starts_only_when_the_relay_closes() {
    let mut service = ZeroClawEdgeService::new((), 0);
    let mut call = StreamCall::new();
    // A result that arrives while the relay is open does not complete the call.
    let early = call.step(StreamEvent::Final(WaitOutcome::Resolved(response("x", 0))), &mut service);
    assert!(matches!(early, StreamAction::Ignore));
    assert_eq!(call.current_phase(), StreamPhase::Relaying);
    assert_eq!(service.get_status(0, 0).messages_processed, 0);

    assert!(matches!(call.step(StreamEvent::Chunk(value("1")), &mut service), StreamAction::Emit(_)));
    let closed = call.step(StreamEvent::RelayClosed, &mut service);
    assert!(matches!(closed, StreamAction::AwaitFinal { ceiling: 120 }));
    assert_eq!(call.current_phase(), StreamPhase::AwaitingFinal);
    assert_eq!(STREAM_CEILING, 120);

    // Closure alone is not completion, and no chunk is taken any more.
    assert!(matches!(call.step(StreamEvent::Chunk(value("2")), &mut service), StreamAction::Ignore));
    assert!(matches!(call.step(StreamEvent::RelayClosed, &mut service), StreamAction::Ignore));
    assert_eq!(call.current_phase(), StreamPhase::AwaitingFinal);

    let done = call.step(StreamEvent::Final(WaitOutcome::Resolved(response("x", 5))), &mut service);
    assert!(matches!(done, StreamAction::Complete { settle_ms: 50 }));
    assert_eq!(SETTLE_DELAY_MS, 50);
    assert_eq!(call.current_phase(), StreamPhase::Done);
    // Counted once per call, and the tool calls of a stream are not counted.
    let status = service.get_status(0, 0);
    assert_eq!((status.messages_processed, status.tool_calls_made), (1, 0));
    let more = call.step(StreamEvent::Final(WaitOutcome::Resolved(response("y", 0))), &mut service);
    assert!(matches!(more, StreamAction::Ignore));
    assert_eq!(service.get_status(0, 0).messages_processed, 1);
}

#[test]
fn stream_whose_processor_never_resolves_times_out() {
    let mut service = ZeroClawEdgeService::new((), 0);
    let mut call = StreamCall::new();
    call.step(StreamEvent::Chunk(value("{\"delta\":\"a\"}")), &mut service);
    call.step(StreamEvent::RelayClosed, &mut service);
    match call.step(StreamEvent::Final(WaitOutcome::TimedOut), &mut service) {
        StreamAction::Fail(err) => {
            assert_eq!(err.kind, ErrorKind::Timeout);
            assert_eq!(err.message, "stream response timed out");
        }
        other => panic!("the call fails, got {other:?}"),
    }
    assert_eq!(call.current_phase(), StreamPhase::Failed);
    assert_eq!(service.get_status(0, 0).messages_processed, 0);
}

#[test]
fn stream_fails_on_other_terminal_outcomes_and_refused_chunks() {
    let mut service = ZeroClawEdgeService::new((), 0);
    let mut call = StreamCall::new();
    call.step(StreamEvent::RelayClosed, &mut service);
    let a = call.step(StreamEvent::Final(WaitOutcome::SlotDropped), &mut service);
    assert!(matches!(a, StreamAction::Fail(ref e) if e.kind == ErrorKind::SlotDropped));

    let mut call = StreamCall::new();
    call.step(StreamEvent::RelayClosed, &mut service);
    let a = call.step(StreamEvent::Final(WaitOutcome::Failed("boom".to_string())), &mut service);
    assert!(matches!(a, StreamAction::Fail(ref e) if e.message == "agent error: boom"));

    let mut call = StreamCall::new();
    call.step(StreamEvent::Chunk(value("1")), &mut service);
    let a = call.step(StreamEvent::EmitRefused("subscriber gone".to_string()), &mut service);
    assert!(matches!(a, StreamAction::Fail(ref e) if e.kind == ErrorKind::EmitFailed && e.message == "subscriber gone"));
    assert_eq!(call.current_phase(), StreamPhase::Failed);
    assert!(matches!(call.step(StreamEvent::Chunk(value("2")), &mut service), StreamAction::Ignore));
    assert!(matches!(call.step(StreamEvent::RelayClosed, &mut service), StreamAction::Ignore));
    assert_eq!(service.get_status(0, 0).messages_processed, 0);
}

#[test]
fn streaming_call_starts_with_its_own_ceiling_and_a_relay() {
    let service = ZeroClawEdgeService::new("queue", 0);
    let start = service.begin_call(true).expect("the service is linked");
    assert_eq!(*start.sender, "queue");
    assert_eq!(start.ceiling, 120);
    assert_eq!(start.relay_capacity, Some(128));
}

#[test]
fn queue_capacities() {
    assert_eq!(AGENT_QUEUE_CAPACITY, 64);
    assert_eq!(CONFIG_QUEUE_CAPACITY, 16);
    assert_eq!(RELAY_QUEUE_CAPACITY, 128);
}

#[test]
fn recall_limit_defaults_to_ten() {
    assert_eq!(recall_limit(5), 5);
    assert_eq!(recall_limit(1), 1);
    assert_eq!(recall_limit(0), 10);
    assert_eq!(recall_limit(-3), 10);
    assert_eq!(recall_limit(i32::MAX), i32::MAX as usize);
    assert_eq!(recall_limit(i32::MIN), 10);
}

fn config(pairs: &[(&str, &str)], restart: bool) -> ConfigUpdateRequest {
    ConfigUpdateRequest {
        config: pairs.iter().map(|(k, v)| (k.to_string(), v.to_string())).collect(),
        restart,
    }
}

#[test]
fn config_update_takes_what_reads_as_its_type() {
    let req = config(
        &[("model", "big"), ("temperature", "0.7"), ("max_tool_iterations", "12"), ("auto_save", "false")],
        true,
    );
    let (update, reply) = update_config(&req, true);
    let update = update.expect("something changes");
    assert_eq!(update.model.as_deref(), Some("big"));
    assert_eq!(update.temperature.as_deref(), Some("0.7"));
    assert_eq!(update.max_tool_iterations, Some(12));
    assert_eq!(update.auto_save, Some(false));
    assert!(reply.applied);
    assert!(reply.restart_required);
    assert!(reply.effective_config.is_empty());
}

#[test]
fn config_update_passes_over_what_does_not_parse() {
    let req = config(
        &[("temperature", "warm"), ("max_tool_iterations", "-1"), ("auto_save", "yes"), ("other", "x")],
        false,
    );
    let (update, reply) = update_config(&req, false);
    assert!(update.is_none());
    assert!(!reply.applied);
    assert!(!reply.restart_required);

    let (update, reply) = update_config(&config(&[], true), true);
    assert!(update.is_none());
    assert!(!reply.applied);
    assert!(reply.restart_required);

    let req = config(&[("auto_save", "True"), ("max_tool_iterations", "07")], false);
    let (update, reply) = update_config(&req, true);
    let update = update.unwrap();
    assert_eq!(update.auto_save, None);
    assert_eq!(update.max_tool_iterations, Some(7));
    assert_eq!(update.model, None);
    assert_eq!(update.temperature, None);
    assert!(reply.applied);
}

#[test]
fn turn_text_becomes_a_plain_response() {
    let r = AgentResponse::from_text("answer".to_string());
    assert_eq!(r.response, "answer");
    assert!(r.tool_calls.is_empty());
    assert_eq!(r.iterations, 0);
}
