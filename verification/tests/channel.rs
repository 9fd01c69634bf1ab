use dink_bridge::channel::{format_message_id, DinkChannel, SendMessage};
use dink_bridge::correlator::Resolution;
use dink_bridge::edge_service::AgentRequest;

fn request(
    message: &str,
    channel: &str,
    metadata: &[(&str, &str)],
    slot: u32,
) -> AgentRequest<u32, ()> {
    AgentRequest::unary(
        message.to_string(),
        channel.to_string(),
        metadata.iter().map(|(k, v)| (k.to_string(), v.to_string())).collect(),
        slot,
    )
}

#[test]
fn listen_converts_agent_request_to_channel_message() {
    let mut channel: DinkChannel<u32> = DinkChannel::new();
    let msg = channel.listen(request("hello from dink", "test", &[("sender", "user-1")], 7), 1_700);

    assert_eq!(msg.content, "hello from dink");
    assert_eq!(msg.sender, "user-1");
    assert_eq!(msg.channel, "test");
    assert!(msg.id.starts_with("dink-"));
    assert_eq!(msg.id, "dink-1");
    assert_eq!(msg.reply_target, "dink-rpc");
    assert_eq!(msg.timestamp, 1_700);
    assert_eq!(msg.thread_ts, None);
    assert_eq!(channel.pending_len(), 1);
}

#[test]
fn send_resolves_pending_oneshot() {
    let mut channel: DinkChannel<u32> = DinkChannel::new();
    for _ in 0..41 {
        let msg = channel.listen(request("warm up", "", &[], 0), 0);
        channel.send(&SendMessage::new("done", &msg.id));
    }
    let msg = channel.listen(request("question", "", &[], 99), 0);
    assert_eq!(msg.id, "dink-42");

    match channel.send(&SendMessage::new("agent reply", "dink-42")) {
        Resolution::Deliver { slot, result } => {
            assert_eq!(slot, 99);
            assert_eq!(result.response, "agent reply");
            assert!(result.tool_calls.is_empty());
            assert_eq!(result.iterations, 0);
        }
        Resolution::Orphaned { .. } => panic!("the request was pending"),
    }
    assert_eq!(channel.pending_len(), 0);
}

#[test]
fn defaults_fill_what_the_request_leaves_out() {
    let mut channel: DinkChannel<u32> = DinkChannel::new();
    let msg = channel.listen(request("hi", "", &[], 1), 5);
    assert_eq!(msg.sender, "dink-rpc");
    assert_eq!(msg.reply_target, "dink-rpc");
    assert_eq!(msg.channel, "dink");
    assert_eq!(msg.thread_ts, None);
}

#[test]
fn metadata_names_sender_reply_target_and_thread() {
    let mut channel: DinkChannel<u32> = DinkChannel::new();
    let meta = [("thread_ts", "17.5"), ("reply_to", "ops"), ("sender", "alice"), ("sender", "bob")];
    let msg = channel.listen(request("hi", "room", &meta, 1), 5);
    assert_eq!(msg.sender, "alice");
    assert_eq!(msg.reply_target, "ops");
    assert_eq!(msg.thread_ts.as_deref(), Some("17.5"));
    assert_eq!(msg.channel, "room");
}

#[test]
fn identifiers_count_up() {
    let mut channel: DinkChannel<u32> = DinkChannel::new();
    let ids: Vec<String> =
        (0..12).map(|i| channel.listen(request("m", "", &[], i), 0).id).collect();
    assert_eq!(ids[0], "dink-1");
    assert_eq!(ids[8], "dink-9");
    assert_eq!(ids[9], "dink-10");
    assert_eq!(ids[11], "dink-12");
    assert_eq!(channel.pending_len(), 12);
}

#[test]
fn message_id_is_prefix_and_decimal() {
    assert_eq!(format_message_id(0), "dink-0");
    assert_eq!(format_message_id(7), "dink-7");
    assert_eq!(format_message_id(10), "dink-10");
    assert_eq!(format_message_id(1234567890), "dink-1234567890");
    assert_eq!(format_message_id(u64::MAX), "dink-18446744073709551615");
}

#[test]
fn response_for_unknown_request_is_dropped() {
    let mut channel: DinkChannel<u32> = DinkChannel::new();
    channel.listen(request("m", "", &[], 5), 0);
    let r = channel.send(&SendMessage::new("late", "dink-2"));
    assert!(matches!(r, Resolution::Orphaned { ref result } if result.response == "late"));
    assert_eq!(channel.pending_len(), 1);
    let r = channel.send(&SendMessage::new("first", "dink-1"));
    assert!(matches!(r, Resolution::Deliver { slot: 5, .. }));
    let r = channel.send(&SendMessage::new("again", "dink-1"));
    assert!(matches!(r, Resolution::Orphaned { .. }));
}

#[test]
fn streaming_sink_is_not_carried_on() {
    let mut channel: DinkChannel<u32> = DinkChannel::new();
    let req: AgentRequest<u32, &'static str> = AgentRequest::streaming(
        "stream me".to_string(),
        "s".to_string(),
        Vec::new(),
        3,
        "sink",
    );
    assert_eq!(req.stream_delta_tx, Some("sink"));
    let msg = channel.listen(req, 9);
    assert_eq!(msg.content, "stream me");
    assert_eq!(channel.pending_len(), 1);
}

#[test]
fn cancel_all_closes_every_waiter() {
    let mut channel: DinkChannel<u32> = DinkChannel::new();
    channel.listen(request("a", "", &[], 10), 0);
    channel.listen(request("b", "", &[], 20), 0);
    assert_eq!(channel.cancel_all(), vec![10, 20]);
    assert_eq!(channel.pending_len(), 0);
    // Numbering goes on where it was.
    assert_eq!(channel.listen(request("c", "", &[], 30), 0).id, "dink-3");
}

#[test]
fn channel_name_and_health() {
    let channel: DinkChannel<u32> = DinkChannel::new();
    assert_eq!(channel.name(), "dink");
    assert!(channel.health_check());
}
