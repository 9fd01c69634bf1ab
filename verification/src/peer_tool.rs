//! A tool that sends a message to another instance of the same peer group.

use vstd::prelude::*;
use vstd::string::*;
use vstd::utf8::*;
use crate::messages::ZcSendMessageRequest;
use crate::schema::{add_field, add_name, fields_view, plain_field, Additional, FieldType, FieldView, SchemaField, SchemaView, ToolSchema};
use crate::service_tool::{ToolResult, ToolResultView};
use crate::text::{joined, decimal, owned, push_decimal, strings_view, utf8_text};

verus! {

/// The arguments of a call, as read from the JSON object that the workflow
/// hands over: each is present where the object has a string under its name.
#[derive(Debug, Clone)]
pub struct PeerMessageArgs {
    pub target_edge_id: Option<String>,
    pub message: Option<String>,
    pub service: Option<String>,
    pub method: Option<String>,
}

/// A call to make: the peer, the operation, and the request to send.
#[derive(Debug, Clone)]
pub struct PeerCall {
    pub target_edge_id: String,
    pub service: String,
    pub method: String,
    pub request: ZcSendMessageRequest,
}

/// What to do with a call.
#[derive(Debug)]
pub enum PeerPlan {
    /// Make this call.
    Call(PeerCall),
    /// Make none: there is no transport link. The result says so.
    Unavailable(ToolResult),
}

/// Why a call ended without a result.
#[derive(Debug, Clone)]
pub enum PeerError {
    /// A required argument is absent.
    MissingField(String),
    /// The peer could not be called.
    CallFailed(String),
}

impl PeerError {
    /// The text of the failure.
    pub fn message(&self) -> (r: String)
        ensures
            r@ == match *self {
                PeerError::MissingField(name) => "missing required field: "@ + name@,
                PeerError::CallFailed(reason) => "peer call failed: "@ + reason@,
            },
    {
        match self {
            PeerError::MissingField(name) => joined("missing required field: ", name.as_str()),
            PeerError::CallFailed(reason) => joined("peer call failed: ", reason.as_str()),
        }
    }
}

/// The schema of the tool's arguments.
pub open spec fn peer_schema() -> SchemaView {
    SchemaView {
        properties: Some(
            Seq::<FieldView>::empty().push(
                plain_field(
                    "target_edge_id"@,
                    FieldType::String,
                    "The edge ID of the target ZeroClaw instance"@,
                ),
            ).push(
                FieldView {
                    name: "service"@,
                    kind: FieldType::String,
                    description: "Service name on the target edge (default: ZeroClawService)"@,
                    additional: Additional::Unspecified,
                    default: Some("ZeroClawService"@),
                },
            ).push(
                FieldView {
                    name: "method"@,
                    kind: FieldType::String,
                    description: "Method name to invoke (default: SendMessage)"@,
                    additional: Additional::Unspecified,
                    default: Some("SendMessage"@),
                },
            ).push(
                plain_field(
                    "message"@,
                    FieldType::String,
                    "The message to send to the target instance"@,
                ),
            ),
        ),
        required: Some(Seq::<Seq<char>>::empty().push("target_edge_id"@).push("message"@)),
        additional: Additional::Unspecified,
    }
}

/// The text that stands for a reply of `n` bytes that is not UTF-8.
pub open spec fn non_utf8_notice(n: nat) -> Seq<char> {
    "<non-utf8 response: "@ + decimal(n) + " bytes>"@
}

/// The text of a reply: the reply itself where it is UTF-8, else a notice
/// that says how long it is.
pub open spec fn peer_reply_text(bytes: Seq<u8>) -> Seq<char> {
    if valid_utf8(bytes) {
        decode_utf8(bytes)
    } else {
        non_utf8_notice(bytes.len())
    }
}

/// Sends messages to other instances over the peer-to-peer transport.
#[derive(Debug, Clone, Copy)]
pub struct PeerMessageTool;

impl PeerMessageTool {
    /// The tool.
    pub fn new() -> Self {
        PeerMessageTool
    }

    /// The name of the tool.
    pub fn name(&self) -> (r: &'static str)
        ensures
            r@ == "peer_message"@,
    {
        "peer_message"
    }

    /// What the tool is for.
    pub fn description(&self) -> (r: &'static str)
        ensures
            r@
                == "Send a message to another ZeroClaw instance in the same Dink peer group. Use for inter-agent communication and multi-agent workflows."@,
    {
        "Send a message to another ZeroClaw instance in the same Dink peer group. Use for inter-agent communication and multi-agent workflows."
    }

    /// The schema of the arguments: the peer and the message are required,
    /// the service and the method have defaults.
    pub fn parameters_schema(&self) -> (schema: ToolSchema)
        ensures
            schema@ == peer_schema(),
    {
        let mut fields: Vec<SchemaField> = Vec::new();
        proof {
            assert(fields_view(fields@) =~= Seq::<FieldView>::empty());
        }
        add_field(
            &mut fields,
            "target_edge_id",
            FieldType::String,
            "The edge ID of the target ZeroClaw instance",
            Additional::Unspecified,
            None,
        );
        add_field(
            &mut fields,
            "service",
            FieldType::String,
            "Service name on the target edge (default: ZeroClawService)",
            Additional::Unspecified,
            Some("ZeroClawService"),
        );
        add_field(
            &mut fields,
            "method",
            FieldType::String,
            "Method name to invoke (default: SendMessage)",
            Additional::Unspecified,
            Some("SendMessage"),
        );
        add_field(
            &mut fields,
            "message",
            FieldType::String,
            "The message to send to the target instance",
            Additional::Unspecified,
            None,
        );
        let mut required: Vec<String> = Vec::new();
        proof {
            assert(strings_view(required@) =~= Seq::<Seq<char>>::empty());
        }
        add_name(&mut required, "target_edge_id");
        add_name(&mut required, "message");
        ToolSchema { properties: Some(fields), required: Some(required), additional: Additional::Unspecified }
    }

    /// Decides what to do with a call. The peer and the message must be
    /// given: the first of them that is absent ends the call with a failure
    /// that names it. The service and the method default to the message
    /// operation of an instance. With everything given, a call is made where
    /// the transport is connected; where it is not, the call ends with a
    /// failed result.
    pub fn plan(&self, args: PeerMessageArgs, connected: bool) -> (r: Result<PeerPlan, PeerError>)
        ensures
            match r {
                Err(PeerError::MissingField(name)) => {
                    &&& args.target_edge_id is None || args.message is None
                    &&& name@ == (if args.target_edge_id is None {
                        "target_edge_id"@
                    } else {
                        "message"@
                    })
                },
                Err(_) => false,
                Ok(PeerPlan::Unavailable(result)) => {
                    &&& args.target_edge_id is Some && args.message is Some && !connected
                    &&& result@ == unavailable()
                },
                Ok(PeerPlan::Call(call)) => {
                    &&& args.target_edge_id is Some && args.message is Some && connected
                    &&& call.target_edge_id == args.target_edge_id->0
                    &&& call.service@ == (match args.service {
                        Some(s) => s@,
                        None => "ZeroClawService"@,
                    })
                    &&& call.method@ == (match args.method {
                        Some(m) => m@,
                        None => "SendMessage"@,
                    })
                    &&& call.request.message == args.message->0
                    &&& call.request.channel@ == "peer"@
                    &&& call.request.metadata@.len() == 0
                },
            },
    {
        let target_edge_id = match args.target_edge_id {
            Some(t) => t,
            None => {
                return Err(PeerError::MissingField(owned("target_edge_id")));
            },
        };
        let message = match args.message {
            Some(m) => m,
            None => {
                return Err(PeerError::MissingField(owned("message")));
            },
        };
        let service = match args.service {
            Some(s) => s,
            None => owned("ZeroClawService"),
        };
        let method = match args.method {
            Some(m) => m,
            None => owned("SendMessage"),
        };
        if !connected {
            return Ok(
                PeerPlan::Unavailable(
                    ToolResult {
                        success: false,
                        output: String::new(),
                        error: Some(owned("Dink edge client is not connected")),
                    },
                ),
            );
        }
        let request = ZcSendMessageRequest { message, channel: owned("peer"), metadata: Vec::new() };
        Ok(PeerPlan::Call(PeerCall { target_edge_id, service, method, request }))
    }

    /// The result of a call from what the peer answered: `Ok` with the bytes
    /// of its reply, or `Err` with the reason why it could not be called. A
    /// reply is a success, whatever it holds; a peer that could not be called
    /// ends the call with a failure.
    pub fn outcome(&self, reply: Result<Vec<u8>, String>) -> (r: Result<ToolResult, PeerError>)
        ensures
            match (reply, r) {
                (Ok(bytes), Ok(result)) => result@ == (ToolResultView {
                    success: true,
                    output: peer_reply_text(bytes@),
                    error: None,
                }),
                (Err(reason), Err(PeerError::CallFailed(why))) => why == reason,
                _ => false,
            },
    {
        match reply {
            Ok(bytes) => {
                let n = bytes.len();
                let output = match utf8_text(bytes) {
                    Some(text) => text,
                    None => {
                        let mut notice = owned("<non-utf8 response: ");
                        push_decimal(&mut notice, n as u64);
                        notice.append(" bytes>");
                        notice
                    },
                };
                Ok(ToolResult { success: true, output, error: None })
            },
            Err(reason) => Err(PeerError::CallFailed(reason)),
        }
    }
}

/// The result of a call that was not made for want of a transport link.
pub open spec fn unavailable() -> ToolResultView {
    ToolResultView {
        success: false,
        output: Seq::empty(),
        error: Some("Dink edge client is not connected"@),
    }
}

} // verus!
