//! The channel that feeds calls from the dispatcher into the message bus of
//! the processing loop, and carries the loop's responses back.
//!
//! Each request taken from the work queue gets a fresh identifier, under
//! which its completion slot is registered before the message goes on the bus;
//! the response that later names this identifier is matched with the slot.

use vstd::prelude::*;
use vstd::string::*;
use crate::correlator::{slot_of, without, Correlator, Resolution};
use crate::edge_service::{AgentRequest, AgentResponse};
use crate::messages::{lookup, member, members_view, ToolCallRecord};
use crate::text::{decimal, owned, push_decimal};

verus! {

/// A message on the bus of the processing loop.
#[derive(Debug, Clone)]
pub struct ChannelMessage {
    pub id: String,
    pub sender: String,
    pub reply_target: String,
    pub content: String,
    pub channel: String,
    pub timestamp: u64,
    pub thread_ts: Option<String>,
}

/// The mathematical content of a [`ChannelMessage`].
pub struct ChannelMessageView {
    pub id: Seq<char>,
    pub sender: Seq<char>,
    pub reply_target: Seq<char>,
    pub content: Seq<char>,
    pub channel: Seq<char>,
    pub timestamp: u64,
    pub thread_ts: Option<Seq<char>>,
}

impl View for ChannelMessage {
    type V = ChannelMessageView;

    open spec fn view(&self) -> ChannelMessageView {
        ChannelMessageView {
            id: self.id@,
            sender: self.sender@,
            reply_target: self.reply_target@,
            content: self.content@,
            channel: self.channel@,
            timestamp: self.timestamp,
            thread_ts: match self.thread_ts {
                Some(t) => Some(t@),
                None => None,
            },
        }
    }
}

/// A response of the processing loop, addressed to the request it answers.
#[derive(Debug, Clone)]
pub struct SendMessage {
    pub content: String,
    pub recipient: String,
}

impl SendMessage {
    /// A response with the text `content` for the request `recipient`.
    pub fn new(content: &str, recipient: &str) -> (m: Self)
        ensures
            m.content@ == content@,
            m.recipient@ == recipient@,
    {
        SendMessage { content: owned(content), recipient: owned(recipient) }
    }
}

/// The identifier of the request with the running number `counter`.
pub open spec fn message_id(counter: u64) -> Seq<char> {
    "dink-"@ + decimal(counter as nat)
}

/// Writes the identifier of the request with the running number `counter`.
pub fn format_message_id(counter: u64) -> (id: String)
    ensures
        id@ == message_id(counter),
{
    let mut id = owned("dink-");
    push_decimal(&mut id, counter);
    id
}

/// The sender and the reply target of a message whose request names none.
pub open spec fn default_party() -> Seq<char> {
    "dink-rpc"@
}

/// The channel of a message whose request names none.
pub open spec fn default_channel() -> Seq<char> {
    "dink"@
}

/// The bus message for a request: its text as it is; its sender and reply
/// target as the metadata name them under `sender` and `reply_to`, else the
/// default; its channel, or the default where the request leaves it empty;
/// its thread as the metadata name it under `thread_ts`, if they do.
pub open spec fn channel_message(
    id: Seq<char>,
    message: Seq<char>,
    channel: Seq<char>,
    metadata: Seq<(Seq<char>, Seq<char>)>,
    now: u64,
) -> ChannelMessageView {
    ChannelMessageView {
        id,
        sender: match member(metadata, "sender"@) {
            Some(s) => s,
            None => default_party(),
        },
        reply_target: match member(metadata, "reply_to"@) {
            Some(s) => s,
            None => default_party(),
        },
        content: message,
        channel: if channel.len() == 0 {
            default_channel()
        } else {
            channel
        },
        timestamp: now,
        thread_ts: member(metadata, "thread_ts"@),
    }
}

/// The response that the channel hands to a waiting call: the text of the
/// loop's message, no tool calls, no iterations.
pub open spec fn is_plain_response(response: AgentResponse, content: Seq<char>) -> bool {
    &&& response.response@ == content
    &&& response.tool_calls@.len() == 0
    &&& response.iterations == 0
}

/// The channel's state: the pending requests and the running number of the
/// last one.
#[derive(Debug)]
pub struct DinkChannel<Slot> {
    pending: Correlator<Slot>,
    msg_counter: u64,
}

impl<Slot> DinkChannel<Slot> {
    /// The pending requests, oldest first.
    pub closed spec fn entries(&self) -> Seq<(Seq<char>, Slot)> {
        self.pending.entries()
    }

    /// The running number of the request taken last.
    pub closed spec fn counter(&self) -> u64 {
        self.msg_counter
    }

    /// A channel that has taken no request yet.
    pub fn new() -> (c: Self)
        ensures
            c.entries() == Seq::<(Seq<char>, Slot)>::empty(),
            c.counter() == 0,
    {
        DinkChannel { pending: Correlator::new(), msg_counter: 0 }
    }

    /// The name of the channel.
    pub fn name(&self) -> (r: &'static str)
        ensures
            r@ == "dink"@,
    {
        "dink"
    }

    /// The channel is healthy for as long as it exists.
    pub fn health_check(&self) -> (r: bool)
        ensures
            r,
    {
        true
    }

    /// How many requests wait for their response.
    pub fn pending_len(&self) -> (n: usize)
        ensures
            n == self.entries().len(),
    {
        self.pending.len()
    }

    /// Takes one request from the work queue at the instant `now` (seconds
    /// since the epoch): numbers it, registers its slot under the new
    /// identifier, and returns the message to put on the bus. The sink of a
    /// streaming request is not carried on: it is closed here.
    pub fn listen<Sink>(&mut self, request: AgentRequest<Slot, Sink>, now: u64) -> (msg:
        ChannelMessage)
        ensures
            final(self).counter() == old(self).counter().wrapping_add(1),
            msg@ == channel_message(
                message_id(final(self).counter()),
                request.message@,
                request.channel@,
                members_view(request.metadata@),
                now,
            ),
            final(self).entries() == without(old(self).entries(), msg@.id).push(
                (msg@.id, request.response_tx),
            ),
            slot_of(final(self).entries(), msg@.id) == Some(request.response_tx),
    {
        self.msg_counter = self.msg_counter.wrapping_add(1);
        let id = format_message_id(self.msg_counter);
        let AgentRequest { message, channel, metadata, response_tx, stream_delta_tx: _ } = request;
        let _ = self.pending.register(id.clone(), response_tx);
        let sender = match lookup(&metadata, "sender") {
            Some(s) => s.clone(),
            None => owned("dink-rpc"),
        };
        let reply_target = match lookup(&metadata, "reply_to") {
            Some(s) => s.clone(),
            None => owned("dink-rpc"),
        };
        let thread_ts = match lookup(&metadata, "thread_ts") {
            Some(s) => Some(s.clone()),
            None => None,
        };
        let channel = if channel.as_str().is_empty() {
            owned("dink")
        } else {
            channel
        };
        ChannelMessage { id, sender, reply_target, content: message, channel, timestamp: now, thread_ts }
    }

    /// Takes a response of the processing loop. Where the request it names
    /// is pending, the request's slot leaves the map and comes back with the
    /// response for the caller to fulfil; the caller ignores a slot whose
    /// waiter has gone. Where no such request is pending the response comes
    /// back as an orphan and nothing changes.
    pub fn send(&mut self, message: &SendMessage) -> (r: Resolution<Slot, AgentResponse>)
        ensures
            final(self).counter() == old(self).counter(),
            final(self).entries() == without(old(self).entries(), message.recipient@),
            match r {
                Resolution::Deliver { slot, result } => slot_of(
                    old(self).entries(),
                    message.recipient@,
                ) == Some(slot) && is_plain_response(result, message.content@),
                Resolution::Orphaned { result } => slot_of(
                    old(self).entries(),
                    message.recipient@,
                ) is None && is_plain_response(result, message.content@),
            },
    {
        let response = AgentResponse {
            response: message.content.clone(),
            tool_calls: Vec::<ToolCallRecord>::new(),
            iterations: 0,
        };
        self.pending.resolve(message.recipient.as_str(), response)
    }

    /// Drops every pending request and returns their slots, oldest first, for
    /// the caller to close: each waiter then fails with a closed channel.
    pub fn cancel_all(&mut self) -> (cancelled: Vec<Slot>)
        ensures
            final(self).counter() == old(self).counter(),
            final(self).entries() == Seq::<(Seq<char>, Slot)>::empty(),
            cancelled@ == crate::correlator::slots(old(self).entries()),
    {
        self.pending.cancel_all()
    }
}

} // verus!
