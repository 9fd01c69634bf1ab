//! A remote operation wrapped as a locally callable tool: its derived name,
//! the encoding of its arguments and the rendering of the peer's reply.

use vstd::prelude::*;
use vstd::string::*;
use vstd::utf8::*;
use crate::schema::{SchemaView, ToolSchema};
use crate::json::{json_from_slice, json_pretty, json_text, json_to_string_pretty, json_to_vec, json_value};
use crate::text::{ascii_lower, char_is_uppercase, char_to_ascii_lowercase, chars_of, is_upper, lossy_text, push_char, string_of, utf8_lossy};

verus! {

/// What one character contributes to the lowercase-underscore form: an
/// uppercase letter becomes its ASCII lowercase, preceded by `_` unless it is
/// the first character; any other character stays as it is.
pub open spec fn snake_piece(c: char, first: bool) -> Seq<char> {
    if is_upper(c) {
        if first {
            seq![ascii_lower(c)]
        } else {
            seq!['_', ascii_lower(c)]
        }
    } else {
        seq![c]
    }
}

/// The lowercase-underscore form of a boundary-capitalized name. Every
/// uppercase letter opens a segment of its own, so an acronym such as `HTML`
/// comes out one letter per segment.
pub open spec fn snake_case(s: Seq<char>) -> Seq<char>
    decreases s.len(),
{
    if s.len() == 0 {
        Seq::empty()
    } else {
        snake_case(s.drop_last()) + snake_piece(s.last(), s.len() == 1)
    }
}

/// Converts a boundary-capitalized name to lowercase-underscore form.
pub fn to_snake_case(s: &str) -> (out: String)
    ensures
        out@ == snake_case(s@),
{
    let chars = chars_of(s);
    let mut out = String::new();
    let mut i: usize = 0;
    while i < chars.len()
        invariant
            i <= chars.len(),
            chars@ == s@,
            out@ == snake_case(chars@.subrange(0, i as int)),
        decreases chars.len() - i,
    {
        let ch = chars[i];
        proof {
            let next = chars@.subrange(0, i + 1);
            assert(next.drop_last() == chars@.subrange(0, i as int));
            assert(next.last() == ch);
        }
        if char_is_uppercase(ch) {
            if i > 0 {
                push_char(&mut out, '_');
            }
            push_char(&mut out, char_to_ascii_lowercase(ch));
        } else {
            push_char(&mut out, ch);
        }
        i += 1;
    }
    proof {
        assert(chars@.subrange(0, chars.len() as int) == chars@);
    }
    out
}

/// The conventional suffix of service names, dropped from tool names.
pub open spec fn service_suffix() -> Seq<char> {
    seq!['S', 'e', 'r', 'v', 'i', 'c', 'e']
}

/// `s` without one trailing `Service`, or `s` itself where it does not end so.
pub open spec fn strip_service_suffix(s: Seq<char>) -> Seq<char> {
    let k = s.len() - service_suffix().len();
    if k >= 0 && s.subrange(k, s.len() as int) == service_suffix() {
        s.subrange(0, k)
    } else {
        s
    }
}

/// The local identifier of a remote operation: the fixed prefix `dink_`, the
/// service name without its suffix and the method name, both in
/// lowercase-underscore form and joined by `_`.
pub open spec fn tool_name_of(service: Seq<char>, method: Seq<char>) -> Seq<char> {
    seq!['d', 'i', 'n', 'k', '_'] + snake_case(strip_service_suffix(service)) + seq!['_']
        + snake_case(method)
}

/// Drops one trailing `Service` from a service name.
pub fn strip_suffix_service(service: &str) -> (out: String)
    ensures
        out@ == strip_service_suffix(service@),
{
    let chars = chars_of(service);
    let suffix = chars_of("Service");
    proof {
        reveal_strlit("Service");
        assert(suffix@ == service_suffix());
    }
    let n = chars.len();
    proof {
        assert(chars@.subrange(0, n as int) == chars@);
    }
    if n < 7 {
        return string_of(&chars, 0, n);
    }
    let k = n - 7;
    let mut j: usize = 0;
    while j < 7
        invariant
            j <= 7,
            n == chars.len(),
            k + 7 == n,
            chars@ == service@,
            suffix@ == service_suffix(),
            forall|t: int| 0 <= t < j ==> chars@[k + t] == suffix@[t],
        decreases 7 - j,
    {
        if chars[k + j] != suffix[j] {
            proof {
                let tail = chars@.subrange(k as int, n as int);
                assert(tail[j as int] != service_suffix()[j as int]);
                assert(chars@.subrange(0, n as int) == chars@);
            }
            return string_of(&chars, 0, n);
        }
        j += 1;
    }
    proof {
        assert(chars@.subrange(k as int, n as int) == service_suffix());
    }
    string_of(&chars, 0, k)
}

/// Derives the local identifier under which `service.method` is offered.
pub fn tool_name(service: &str, method: &str) -> (out: String)
    ensures
        out@ == tool_name_of(service@, method@),
{
    let stem = strip_suffix_service(service);
    let svc = to_snake_case(stem.as_str());
    let mth = to_snake_case(method);
    let mut out = String::from_str("dink_");
    proof {
        reveal_strlit("dink_");
        reveal_strlit("_");
        assert("dink_"@ == seq!['d', 'i', 'n', 'k', '_']);
        assert("_"@ == seq!['_']);
    }
    out.append(svc.as_str());
    out.append("_");
    out.append(mth.as_str());
    out
}

/// Largest reply, in bytes, that is handed on in full.
pub const MAX_OUTPUT_BYTES: usize = 50 * 1024;

/// The text appended to a reply that was cut.
pub open spec fn truncation_marker() -> Seq<char> {
    "\n... [truncated]"@
}

/// The largest character boundary of `bytes` that is at most `limit`.
pub open spec fn floor_boundary(bytes: Seq<u8>, limit: int) -> int
    decreases limit,
{
    if limit <= 0 {
        0
    } else if is_char_boundary(bytes, limit) {
        limit
    } else {
        floor_boundary(bytes, limit - 1)
    }
}

/// What is handed on of a reply: the text itself up to the byte ceiling, and
/// beyond it the longest prefix of whole characters that fits the ceiling,
/// followed by the marker.
pub open spec fn truncated(output: Seq<char>) -> Seq<char> {
    let bytes = encode_utf8(output);
    if bytes.len() <= MAX_OUTPUT_BYTES {
        output
    } else {
        decode_utf8(bytes.subrange(0, floor_boundary(bytes, MAX_OUTPUT_BYTES as int)))
            + truncation_marker()
    }
}

/// Cuts an oversized reply at the byte ceiling, on a character boundary, and
/// marks the cut.
pub fn truncate_output(output: String) -> (out: String)
    ensures
        out@ == truncated(output@),
{
    broadcast use group_utf8_lib;

    let s = output.as_str();
    let raw = s.as_bytes();
    if raw.len() > MAX_OUTPUT_BYTES {
        let ghost bytes = encode_utf8(output@);
        assert(raw@ == bytes);
        let mut b: usize = MAX_OUTPUT_BYTES;
        while !s.is_char_boundary(b)
            invariant
                b <= MAX_OUTPUT_BYTES,
                s@ == output@,
                bytes == encode_utf8(output@),
                valid_utf8(bytes),
                floor_boundary(bytes, b as int) == floor_boundary(bytes, MAX_OUTPUT_BYTES as int),
            decreases b,
        {
            proof {
                assert(is_char_boundary(bytes, 0));
            }
            b -= 1;
        }
        proof {
            assert(is_char_boundary(bytes, 0));
            assert(floor_boundary(bytes, b as int) == b);
        }
        let (head, _) = s.split_at(b);
        let mut out = String::from_str(head);
        out.append("\n... [truncated]");
        proof {
            assert(encode_utf8(head@) == bytes.subrange(0, b as int));
            assert(decode_utf8(encode_utf8(head@)) == head@);
        }
        out
    } else {
        output
    }
}

/// What a tool call hands back to the calling workflow.
#[derive(Debug, Clone)]
pub struct ToolResult {
    pub success: bool,
    pub output: String,
    pub error: Option<String>,
}

/// Why the arguments of a tool call could not be sent.
#[derive(Debug, Clone, Copy, PartialEq, Eq, Structural)]
pub enum ToolError {
    /// The arguments could not be written as JSON.
    Serialization,
}

/// The bytes `null`.
pub open spec fn null_text() -> Seq<u8> {
    seq![0x6eu8, 0x75u8, 0x6cu8, 0x6cu8]
}

/// The bytes `{}`.
pub open spec fn empty_object_text() -> Seq<u8> {
    seq![0x7bu8, 0x7du8]
}

/// The request body for arguments whose JSON text is `text`: absent and empty
/// arguments both go out as the empty object.
pub open spec fn normalized_args(text: Seq<u8>) -> Seq<u8> {
    if text == null_text() || text == empty_object_text() {
        empty_object_text()
    } else {
        text
    }
}

/// Replaces absent (`null`) and empty (`{}`) arguments by the empty object.
pub fn normalize_args(text: Vec<u8>) -> (out: Vec<u8>)
    ensures
        out@ == normalized_args(text@),
{
    let is_null = text.len() == 4 && text[0] == 0x6e && text[1] == 0x75 && text[2] == 0x6c
        && text[3] == 0x6c;
    let is_empty = text.len() == 2 && text[0] == 0x7b && text[1] == 0x7d;
    proof {
        assert(is_null == (text@ == null_text())) by {
            if is_null {
                assert(text@ =~= null_text());
            }
        }
        assert(is_empty == (text@ == empty_object_text())) by {
            if is_empty {
                assert(text@ =~= empty_object_text());
            }
        }
    }
    if is_null || is_empty {
        let mut out: Vec<u8> = Vec::new();
        out.push(0x7b);
        out.push(0x7d);
        proof {
            assert(out@ =~= empty_object_text());
        }
        out
    } else {
        text
    }
}

/// What `encode_args` returns for arguments whose compact JSON text is `text`
/// (`None` where they cannot be written as JSON).
pub open spec fn encoded_args(text: Option<Seq<u8>>) -> Result<Seq<u8>, ToolError> {
    match text {
        Some(t) => Ok(normalized_args(t)),
        None => Err(ToolError::Serialization),
    }
}

/// Serializes the arguments of a call to the bytes of the request body.
pub fn encode_args(args: serde_json::Value) -> (r: Result<Vec<u8>, ToolError>)
    ensures
        match r {
            Ok(b) => encoded_args(json_text(args)) == Ok::<Seq<u8>, ToolError>(b@),
            Err(e) => encoded_args(json_text(args)) == Err::<Seq<u8>, ToolError>(e),
        },
{
    match json_to_vec(&args) {
        Ok(text) => Ok(normalize_args(text)),
        Err(_) => Err(ToolError::Serialization),
    }
}

/// The text shown for a reply: pretty-printed where the reply is JSON (its
/// compact form where pretty-printing fails), else the reply read as UTF-8
/// with invalid sequences replaced.
pub open spec fn reply_text(bytes: Seq<u8>) -> Seq<char> {
    match json_value(bytes) {
        Some(v) => match json_pretty(v) {
            Some(p) => p,
            None => match json_text(v) {
                Some(t) => utf8_lossy(t),
                None => utf8_lossy(bytes),
            },
        },
        None => utf8_lossy(bytes),
    }
}

/// Decodes a reply as structured data when possible, else as raw text.
pub fn render_reply(bytes: &[u8]) -> (out: String)
    ensures
        out@ == reply_text(bytes@),
{
    match json_from_slice(bytes) {
        Ok(v) => match json_to_string_pretty(&v) {
            Ok(p) => p,
            Err(_) => match json_to_vec(&v) {
                Ok(t) => lossy_text(t.as_slice()),
                Err(_) => lossy_text(bytes),
            },
        },
        Err(_) => lossy_text(bytes),
    }
}

/// The mathematical content of a [`DinkServiceTool`].
pub struct ToolView {
    pub edge_id: Seq<char>,
    pub service_name: Seq<char>,
    pub method_name: Seq<char>,
    pub tool_name: Seq<char>,
    pub description: Seq<char>,
    pub schema: SchemaView,
}

/// The tool for `service.method` on the peer `edge`, with its derived name.
pub open spec fn tool_view(
    edge: Seq<char>,
    service: Seq<char>,
    method: Seq<char>,
    description: Seq<char>,
    schema: SchemaView,
) -> ToolView {
    ToolView {
        edge_id: edge,
        service_name: service,
        method_name: method,
        tool_name: tool_name_of(service, method),
        description,
        schema,
    }
}

/// One method of one service on one peer, offered as a local tool. The
/// descriptor does not change once it is made.
#[derive(Debug)]
pub struct DinkServiceTool {
    edge_id: String,
    service_name: String,
    method_name: String,
    tool_name: String,
    tool_description: String,
    params_schema: ToolSchema,
}

impl View for DinkServiceTool {
    type V = ToolView;

    closed spec fn view(&self) -> ToolView {
        ToolView {
            edge_id: self.edge_id@,
            service_name: self.service_name@,
            method_name: self.method_name@,
            tool_name: self.tool_name@,
            description: self.tool_description@,
            schema: self.params_schema@,
        }
    }
}

impl DinkServiceTool {
    /// A descriptor never holds a name other than the one derived from its
    /// service and method.
    #[verifier::type_invariant]
    spec fn name_is_derived(&self) -> bool {
        self.tool_name@ == tool_name_of(self.service_name@, self.method_name@)
    }

    /// Wraps `service_name.method_name` on the peer `edge_id`.
    pub fn new(
        edge_id: String,
        service_name: String,
        method_name: String,
        description: String,
        params_schema: ToolSchema,
    ) -> (tool: Self)
        ensures
            tool@ == tool_view(
                edge_id@,
                service_name@,
                method_name@,
                description@,
                params_schema@,
            ),
    {
        let tool_name = tool_name(service_name.as_str(), method_name.as_str());
        DinkServiceTool {
            edge_id,
            service_name,
            method_name,
            tool_name,
            tool_description: description,
            params_schema,
        }
    }

    /// The derived local identifier.
    pub fn name(&self) -> (r: &str)
        ensures
            r@ == self@.tool_name,
            r@ == tool_name_of(self@.service_name, self@.method_name),
    {
        proof {
            use_type_invariant(self);
        }
        self.tool_name.as_str()
    }

    /// The description shown to callers.
    pub fn description(&self) -> (r: &str)
        ensures
            r@ == self@.description,
    {
        self.tool_description.as_str()
    }

    /// The schema of the arguments.
    pub fn parameters_schema(&self) -> (r: &ToolSchema)
        ensures
            r@ == self@.schema,
    {
        &self.params_schema
    }

    /// The address of the peer that is called.
    pub fn edge_id(&self) -> (r: &str)
        ensures
            r@ == self@.edge_id,
    {
        self.edge_id.as_str()
    }

    /// The service that is called.
    pub fn service_name(&self) -> (r: &str)
        ensures
            r@ == self@.service_name,
    {
        self.service_name.as_str()
    }

    /// The method that is called.
    pub fn method_name(&self) -> (r: &str)
        ensures
            r@ == self@.method_name,
    {
        self.method_name.as_str()
    }

    /// The request body for a call with `args`.
    pub fn request(&self, args: serde_json::Value) -> (r: Result<Vec<u8>, ToolError>)
        ensures
            match r {
                Ok(b) => encoded_args(json_text(args)) == Ok::<Seq<u8>, ToolError>(b@),
                Err(e) => encoded_args(json_text(args)) == Err::<Seq<u8>, ToolError>(e),
            },
    {
        encode_args(args)
    }

    /// The result of a call from what the peer answered: `Ok` with the bytes
    /// of its reply, or `Err` with the reason why the call failed. A failed
    /// call is reported in the result, so that the calling workflow can react
    /// to it.
    pub fn outcome(&self, reply: Result<Vec<u8>, String>) -> (r: ToolResult)
        ensures
            r@ == call_outcome(
                match reply {
                    Ok(b) => Ok(b@),
                    Err(e) => Err(e@),
                },
            ),
    {
        match reply {
            Ok(bytes) => {
                let output = truncate_output(render_reply(bytes.as_slice()));
                ToolResult { success: true, output, error: None }
            },
            Err(e) => ToolResult { success: false, output: String::new(), error: Some(e) },
        }
    }
}

/// The mathematical content of a [`ToolResult`].
pub struct ToolResultView {
    pub success: bool,
    pub output: Seq<char>,
    pub error: Option<Seq<char>>,
}

impl View for ToolResult {
    type V = ToolResultView;

    open spec fn view(&self) -> ToolResultView {
        ToolResultView {
            success: self.success,
            output: self.output@,
            error: match self.error {
                Some(e) => Some(e@),
                None => None,
            },
        }
    }
}

/// The result of a call: on a reply, success with the reply's text, cut to
/// the ceiling; on a failure, a failed result that carries the reason and no
/// output.
pub open spec fn call_outcome(reply: Result<Seq<u8>, Seq<char>>) -> ToolResultView {
    match reply {
        Ok(bytes) => ToolResultView {
            success: true,
            output: truncated(reply_text(bytes)),
            error: None,
        },
        Err(e) => ToolResultView { success: false, output: Seq::empty(), error: Some(e) },
    }
}

} // verus!
