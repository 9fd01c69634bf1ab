//! The payloads of the operations that peers offer, as they travel on the
//! wire. A map from names to strings is held as its list of members.

use vstd::prelude::*;
use crate::text::str_eq;

verus! {

/// The members of a string-to-string map, in order.
pub open spec fn members_view(members: Seq<(String, String)>) -> Seq<(Seq<char>, Seq<char>)> {
    members.map_values(|m: (String, String)| (m.0@, m.1@))
}

/// The value of the first member named `key`, if there is one.
pub open spec fn member(members: Seq<(Seq<char>, Seq<char>)>, key: Seq<char>) -> Option<Seq<char>>
    decreases members.len(),
{
    if members.len() == 0 {
        None
    } else if members[0].0 == key {
        Some(members[0].1)
    } else {
        member(members.drop_first(), key)
    }
}

/// Looks `key` up among the members of a map.
pub fn lookup<'a>(members: &'a Vec<(String, String)>, key: &str) -> (r: Option<&'a String>)
    ensures
        match r {
            Some(v) => member(members_view(members@), key@) == Some(v@),
            None => member(members_view(members@), key@) is None,
        },
{
    let ghost all = members_view(members@);
    let mut i: usize = 0;
    proof {
        assert(all.subrange(0, all.len() as int) == all);
    }
    while i < members.len()
        invariant
            i <= members.len(),
            all == members_view(members@),
            member(all, key@) == member(all.subrange(i as int, all.len() as int), key@),
        decreases members.len() - i,
    {
        let ghost rest = all.subrange(i as int, all.len() as int);
        proof {
            assert(rest[0] == all[i as int]);
            assert(rest.drop_first() == all.subrange(i + 1, all.len() as int));
        }
        if str_eq(members[i].0.as_str(), key) {
            return Some(&members[i].1);
        }
        i += 1;
    }
    proof {
        assert(all.subrange(i as int, all.len() as int).len() == 0);
    }
    None
}

/// A shell command to run in a sandbox.
#[derive(Debug, Clone)]
pub struct ExecCommandRequest {
    pub command: String,
    pub cwd: String,
    pub env: Vec<(String, String)>,
    pub timeout_ms: i32,
    pub sandbox_id: String,
}

/// How a command ended, and what it printed.
#[derive(Debug, Clone)]
pub struct ExecResult {
    pub exit_code: i32,
    pub stdout: String,
    pub stderr: String,
}

impl Default for ExecResult {
    /// The result of a command that ran without output and without error.
    fn default() -> (r: Self)
        ensures
            r.exit_code == 0,
            r.stdout@ == Seq::<char>::empty(),
            r.stderr@ == Seq::<char>::empty(),
    {
        ExecResult { exit_code: 0, stdout: String::new(), stderr: String::new() }
    }
}

/// The reply to `ExecCommand`.
#[derive(Debug, Clone)]
pub struct ExecCommandResponse {
    pub result: ExecResult,
}

/// A file, or a part of one, to read from a sandbox.
#[derive(Debug, Clone)]
pub struct ReadFileRequest {
    pub path: String,
    pub encoding: String,
    pub offset: i64,
    pub length: i64,
    pub sandbox_id: String,
}

/// What the sandbox knows of a file.
#[derive(Debug, Clone)]
pub struct FileInfo {
    pub path: String,
    pub name: String,
    pub size: i64,
    pub file_type: i32,
    pub mode: i32,
}

/// The reply to `ReadFile`.
#[derive(Debug, Clone)]
pub struct ReadFileResponse {
    pub content: String,
    pub info: Option<FileInfo>,
}

/// A file to write to a sandbox.
#[derive(Debug, Clone)]
pub struct WriteFileRequest {
    pub path: String,
    pub content: String,
    pub encoding: String,
    pub create_dirs: bool,
    pub mode: i32,
    pub sandbox_id: String,
}

/// The reply to `WriteFile`.
#[derive(Debug, Clone)]
pub struct WriteFileResponse {
    pub info: Option<FileInfo>,
}

/// A pattern to search the files of a sandbox for.
#[derive(Debug, Clone)]
pub struct SearchCodebaseRequest {
    pub pattern: String,
    pub path: String,
    pub file_pattern: String,
    pub case_sensitive: bool,
    pub max_results: i32,
    pub context_lines: i32,
    pub sandbox_id: String,
}

/// One place where the pattern was found, with the lines around it.
#[derive(Debug, Clone)]
pub struct SearchMatch {
    pub path: String,
    pub line: i32,
    pub column: i32,
    pub text: String,
    pub context_before: Vec<String>,
    pub context_after: Vec<String>,
}

/// The reply to `SearchCodebase`.
#[derive(Debug, Clone)]
pub struct SearchCodebaseResponse {
    pub matches: Vec<SearchMatch>,
    pub total_matches: i32,
    pub truncated: bool,
}

/// A directory of a sandbox to list.
#[derive(Debug, Clone)]
pub struct ListFilesRequest {
    pub path: String,
    pub recursive: bool,
    pub pattern: String,
    pub include_hidden: bool,
    pub sandbox_id: String,
}

/// The reply to `ListFiles`.
#[derive(Debug, Clone)]
pub struct ListFilesResponse {
    pub files: Vec<FileInfo>,
}

/// A message for an instance.
#[derive(Debug, Clone)]
pub struct ZcSendMessageRequest {
    pub message: String,
    pub channel: String,
    pub metadata: Vec<(String, String)>,
}

/// One tool call that an instance made while it answered.
#[derive(Debug, Clone)]
pub struct ToolCallRecord {
    pub name: String,
    pub args: String,
    pub result: String,
    pub success: bool,
}

/// What an instance answered, and how it got there.
#[derive(Debug, Clone)]
pub struct ZcSendMessageResponse {
    pub response: String,
    pub tool_calls: Vec<ToolCallRecord>,
    pub iterations: i32,
}

/// One event of a streamed answer.
#[derive(Debug, Clone)]
pub struct AgentEvent {
    pub event_type: String,
    pub content: String,
    pub tool_name: String,
    pub tool_args: String,
}

/// The request of `GetStatus`: it carries nothing.
#[derive(Debug, Clone)]
pub struct ZcGetStatusRequest {}

/// A query for the memories of an instance.
#[derive(Debug, Clone)]
pub struct RecallMemoryRequest {
    pub query: String,
    pub limit: i32,
}

/// Settings of an instance to override.
#[derive(Debug, Clone)]
pub struct UpdateConfigRequest {
    pub overrides: Vec<(String, String)>,
}

/// The reply to `UpdateConfig`.
#[derive(Debug, Clone)]
pub struct UpdateConfigResponse {
    pub success: bool,
    pub error: String,
}

/// The request to shut an instance down.
#[derive(Debug, Clone)]
pub struct ShutdownRequest {
    pub graceful: bool,
}

/// The reply to `Shutdown`.
#[derive(Debug, Clone)]
pub struct ShutdownResponse {
    pub acknowledged: bool,
}

} // verus!
