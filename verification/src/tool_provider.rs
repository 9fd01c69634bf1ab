//! The static table of known services: their methods, the schemas of the
//! methods' arguments and their descriptions, and the discovery of tools from
//! the services that peers advertise.

use vstd::prelude::*;
use vstd::string::*;
use crate::schema::{add_field, add_name, fields_view, plain_field, Additional, FieldType, FieldView, SchemaField, SchemaView, ToolSchema};
use crate::service_tool::{tool_view, DinkServiceTool, ToolView};
use crate::peer_tool::PeerMessageTool;
use crate::text::{contains_str, contains_substring, is_substring, owned, str_eq, strings_view, strs_view};

verus! {

/// The methods that each known service offers; none for any other service.
pub open spec fn known_methods_of(service: Seq<char>) -> Seq<Seq<char>> {
    if service == "AgentToolsService"@ {
        seq!["ExecCommand"@, "ReadFile"@, "WriteFile"@, "ListFiles"@, "SearchCodebase"@, "RunTests"@, "InstallPackage"@, "ExportPatch"@, "DeleteFile"@]
    } else if service == "ZeroClawService"@ {
        seq!["SendMessage"@, "GetStatus"@, "RecallMemory"@, "UpdateConfig"@, "Shutdown"@]
    } else if service == "WorkspaceService"@ {
        seq!["CreateSandbox"@, "DestroySandbox"@, "GetStatus"@, "ListSandboxes"@]
    } else if service == "AgentService"@ {
        seq!["CreateSession"@, "SendMessage"@, "GetEvents"@, "TerminateSession"@, "Health"@, "ListAgents"@]
    } else {
        Seq::empty()
    }
}

/// Looks a service up in the table of known methods. Peers advertise service
/// names only, so the methods of each service are fixed here; a service that
/// the table does not hold has none.
pub fn known_methods(service: &str) -> (methods: Vec<&'static str>)
    ensures
        strs_view(methods@) == known_methods_of(service@),
{
    if str_eq(service, "AgentToolsService") {
        let methods: Vec<&'static str> = vec!["ExecCommand", "ReadFile", "WriteFile", "ListFiles", "SearchCodebase", "RunTests", "InstallPackage", "ExportPatch", "DeleteFile"];
        proof {
            assert(strs_view(methods@) =~= known_methods_of(service@));
        }
        methods
    } else if str_eq(service, "ZeroClawService") {
        let methods: Vec<&'static str> = vec!["SendMessage", "GetStatus", "RecallMemory", "UpdateConfig", "Shutdown"];
        proof {
            assert(strs_view(methods@) =~= known_methods_of(service@));
        }
        methods
    } else if str_eq(service, "WorkspaceService") {
        let methods: Vec<&'static str> = vec!["CreateSandbox", "DestroySandbox", "GetStatus", "ListSandboxes"];
        proof {
            assert(strs_view(methods@) =~= known_methods_of(service@));
        }
        methods
    } else if str_eq(service, "AgentService") {
        let methods: Vec<&'static str> = vec!["CreateSession", "SendMessage", "GetEvents", "TerminateSession", "Health", "ListAgents"];
        proof {
            assert(strs_view(methods@) =~= known_methods_of(service@));
        }
        methods
    } else {
        let methods: Vec<&'static str> = Vec::new();
        proof {
            assert(strs_view(methods@) =~= known_methods_of(service@));
        }
        methods
    }
}

/// The schema of `AgentToolsService.ExecCommand`: the arguments for running a shell command.
pub open spec fn exec_command_schema() -> SchemaView {
    SchemaView {
        properties: Some(
            Seq::<FieldView>::empty()
                .push(plain_field("command"@, FieldType::String, "Shell command to execute"@))
                .push(plain_field("cwd"@, FieldType::String, "Working directory"@))
                .push(FieldView { name: "env"@, kind: FieldType::Object, description: "Environment variables"@, additional: Additional::Strings, default: None })
                .push(plain_field("timeoutMs"@, FieldType::Number, "Timeout in milliseconds"@))
                .push(plain_field("sandboxId"@, FieldType::String, "Target sandbox identifier"@)),
        ),
        required: Some(Seq::<Seq<char>>::empty().push("command"@).push("sandboxId"@)),
        additional: Additional::Unspecified,
    }
}

fn build_exec_command_schema() -> (schema: ToolSchema)
    ensures
        schema@ == exec_command_schema(),
{
    let mut fields: Vec<SchemaField> = Vec::new();
    proof {
        assert(fields_view(fields@) =~= Seq::<FieldView>::empty());
    }
    add_field(&mut fields, "command", FieldType::String, "Shell command to execute", Additional::Unspecified, None);
    add_field(&mut fields, "cwd", FieldType::String, "Working directory", Additional::Unspecified, None);
    add_field(&mut fields, "env", FieldType::Object, "Environment variables", Additional::Strings, None);
    add_field(&mut fields, "timeoutMs", FieldType::Number, "Timeout in milliseconds", Additional::Unspecified, None);
    add_field(&mut fields, "sandboxId", FieldType::String, "Target sandbox identifier", Additional::Unspecified, None);
    let mut required: Vec<String> = Vec::new();
    proof {
        assert(strings_view(required@) =~= Seq::<Seq<char>>::empty());
    }
    add_name(&mut required, "command");
    add_name(&mut required, "sandboxId");
    ToolSchema { properties: Some(fields), required: Some(required), additional: Additional::Unspecified }
}

/// The schema of `AgentToolsService.ReadFile`: the arguments for reading a file.
pub open spec fn read_file_schema() -> SchemaView {
    SchemaView {
        properties: Some(
            Seq::<FieldView>::empty()
                .push(plain_field("path"@, FieldType::String, "File path to read"@))
                .push(plain_field("encoding"@, FieldType::String, "File encoding (default utf-8)"@))
                .push(plain_field("sandboxId"@, FieldType::String, "Target sandbox identifier"@)),
        ),
        required: Some(Seq::<Seq<char>>::empty().push("path"@).push("sandboxId"@)),
        additional: Additional::Unspecified,
    }
}

fn build_read_file_schema() -> (schema: ToolSchema)
    ensures
        schema@ == read_file_schema(),
{
    let mut fields: Vec<SchemaField> = Vec::new();
    proof {
        assert(fields_view(fields@) =~= Seq::<FieldView>::empty());
    }
    add_field(&mut fields, "path", FieldType::String, "File path to read", Additional::Unspecified, None);
    add_field(&mut fields, "encoding", FieldType::String, "File encoding (default utf-8)", Additional::Unspecified, None);
    add_field(&mut fields, "sandboxId", FieldType::String, "Target sandbox identifier", Additional::Unspecified, None);
    let mut required: Vec<String> = Vec::new();
    proof {
        assert(strings_view(required@) =~= Seq::<Seq<char>>::empty());
    }
    add_name(&mut required, "path");
    add_name(&mut required, "sandboxId");
    ToolSchema { properties: Some(fields), required: Some(required), additional: Additional::Unspecified }
}

/// The schema of `AgentToolsService.WriteFile`: the arguments for writing a file.
pub open spec fn write_file_schema() -> SchemaView {
    SchemaView {
        properties: Some(
            Seq::<FieldView>::empty()
                .push(plain_field("path"@, FieldType::String, "File path to write"@))
                .push(plain_field("content"@, FieldType::String, "File content"@))
                .push(plain_field("encoding"@, FieldType::String, "File encoding (default utf-8)"@))
                .push(plain_field("createDirs"@, FieldType::Boolean, "Create parent directories if missing"@))
                .push(plain_field("sandboxId"@, FieldType::String, "Target sandbox identifier"@)),
        ),
        required: Some(Seq::<Seq<char>>::empty().push("path"@).push("content"@).push("sandboxId"@)),
        additional: Additional::Unspecified,
    }
}

fn build_write_file_schema() -> (schema: ToolSchema)
    ensures
        schema@ == write_file_schema(),
{
    let mut fields: Vec<SchemaField> = Vec::new();
    proof {
        assert(fields_view(fields@) =~= Seq::<FieldView>::empty());
    }
    add_field(&mut fields, "path", FieldType::String, "File path to write", Additional::Unspecified, None);
    add_field(&mut fields, "content", FieldType::String, "File content", Additional::Unspecified, None);
    add_field(&mut fields, "encoding", FieldType::String, "File encoding (default utf-8)", Additional::Unspecified, None);
    add_field(&mut fields, "createDirs", FieldType::Boolean, "Create parent directories if missing", Additional::Unspecified, None);
    add_field(&mut fields, "sandboxId", FieldType::String, "Target sandbox identifier", Additional::Unspecified, None);
    let mut required: Vec<String> = Vec::new();
    proof {
        assert(strings_view(required@) =~= Seq::<Seq<char>>::empty());
    }
    add_name(&mut required, "path");
    add_name(&mut required, "content");
    add_name(&mut required, "sandboxId");
    ToolSchema { properties: Some(fields), required: Some(required), additional: Additional::Unspecified }
}

/// The schema of `AgentToolsService.ListFiles`: the arguments for listing a directory.
pub open spec fn list_files_schema() -> SchemaView {
    SchemaView {
        properties: Some(
            Seq::<FieldView>::empty()
                .push(plain_field("path"@, FieldType::String, "Directory path to list"@))
                .push(plain_field("recursive"@, FieldType::Boolean, "List recursively"@))
                .push(plain_field("pattern"@, FieldType::String, "Glob pattern filter"@))
                .push(plain_field("sandboxId"@, FieldType::String, "Target sandbox identifier"@)),
        ),
        required: Some(Seq::<Seq<char>>::empty().push("path"@).push("sandboxId"@)),
        additional: Additional::Unspecified,
    }
}

fn build_list_files_schema() -> (schema: ToolSchema)
    ensures
        schema@ == list_files_schema(),
{
    let mut fields: Vec<SchemaField> = Vec::new();
    proof {
        assert(fields_view(fields@) =~= Seq::<FieldView>::empty());
    }
    add_field(&mut fields, "path", FieldType::String, "Directory path to list", Additional::Unspecified, None);
    add_field(&mut fields, "recursive", FieldType::Boolean, "List recursively", Additional::Unspecified, None);
    add_field(&mut fields, "pattern", FieldType::String, "Glob pattern filter", Additional::Unspecified, None);
    add_field(&mut fields, "sandboxId", FieldType::String, "Target sandbox identifier", Additional::Unspecified, None);
    let mut required: Vec<String> = Vec::new();
    proof {
        assert(strings_view(required@) =~= Seq::<Seq<char>>::empty());
    }
    add_name(&mut required, "path");
    add_name(&mut required, "sandboxId");
    ToolSchema { properties: Some(fields), required: Some(required), additional: Additional::Unspecified }
}

/// The schema of `AgentToolsService.SearchCodebase`: the arguments for searching code.
pub open spec fn search_codebase_schema() -> SchemaView {
    SchemaView {
        properties: Some(
            Seq::<FieldView>::empty()
                .push(plain_field("pattern"@, FieldType::String, "Search pattern (regex)"@))
                .push(plain_field("path"@, FieldType::String, "Search root path"@))
                .push(plain_field("filePattern"@, FieldType::String, "Glob to filter files"@))
                .push(plain_field("maxResults"@, FieldType::Number, "Maximum results to return"@))
                .push(plain_field("sandboxId"@, FieldType::String, "Target sandbox identifier"@)),
        ),
        required: Some(Seq::<Seq<char>>::empty().push("pattern"@).push("sandboxId"@)),
        additional: Additional::Unspecified,
    }
}

fn build_search_codebase_schema() -> (schema: ToolSchema)
    ensures
        schema@ == search_codebase_schema(),
{
    let mut fields: Vec<SchemaField> = Vec::new();
    proof {
        assert(fields_view(fields@) =~= Seq::<FieldView>::empty());
    }
    add_field(&mut fields, "pattern", FieldType::String, "Search pattern (regex)", Additional::Unspecified, None);
    add_field(&mut fields, "path", FieldType::String, "Search root path", Additional::Unspecified, None);
    add_field(&mut fields, "filePattern", FieldType::String, "Glob to filter files", Additional::Unspecified, None);
    add_field(&mut fields, "maxResults", FieldType::Number, "Maximum results to return", Additional::Unspecified, None);
    add_field(&mut fields, "sandboxId", FieldType::String, "Target sandbox identifier", Additional::Unspecified, None);
    let mut required: Vec<String> = Vec::new();
    proof {
        assert(strings_view(required@) =~= Seq::<Seq<char>>::empty());
    }
    add_name(&mut required, "pattern");
    add_name(&mut required, "sandboxId");
    ToolSchema { properties: Some(fields), required: Some(required), additional: Additional::Unspecified }
}

/// The schema of `ZeroClawService.SendMessage`: the arguments for sending a message to an instance.
pub open spec fn send_message_schema() -> SchemaView {
    SchemaView {
        properties: Some(
            Seq::<FieldView>::empty()
                .push(plain_field("message"@, FieldType::String, "Message text"@))
                .push(plain_field("channel"@, FieldType::String, "Target channel"@))
                .push(FieldView { name: "metadata"@, kind: FieldType::Object, description: "Arbitrary metadata"@, additional: Additional::Allowed, default: None }),
        ),
        required: Some(Seq::<Seq<char>>::empty().push("message"@)),
        additional: Additional::Unspecified,
    }
}

fn build_send_message_schema() -> (schema: ToolSchema)
    ensures
        schema@ == send_message_schema(),
{
    let mut fields: Vec<SchemaField> = Vec::new();
    proof {
        assert(fields_view(fields@) =~= Seq::<FieldView>::empty());
    }
    add_field(&mut fields, "message", FieldType::String, "Message text", Additional::Unspecified, None);
    add_field(&mut fields, "channel", FieldType::String, "Target channel", Additional::Unspecified, None);
    add_field(&mut fields, "metadata", FieldType::Object, "Arbitrary metadata", Additional::Allowed, None);
    let mut required: Vec<String> = Vec::new();
    proof {
        assert(strings_view(required@) =~= Seq::<Seq<char>>::empty());
    }
    add_name(&mut required, "message");
    ToolSchema { properties: Some(fields), required: Some(required), additional: Additional::Unspecified }
}

/// The schema of `ZeroClawService.GetStatus`: the arguments for asking an instance for its status.
pub open spec fn get_status_schema() -> SchemaView {
    SchemaView {
        properties: Some(
            Seq::<FieldView>::empty(),
        ),
        required: None,
        additional: Additional::Forbidden,
    }
}

fn build_get_status_schema() -> (schema: ToolSchema)
    ensures
        schema@ == get_status_schema(),
{
    let mut fields: Vec<SchemaField> = Vec::new();
    proof {
        assert(fields_view(fields@) =~= Seq::<FieldView>::empty());
    }
    ToolSchema { properties: Some(fields), required: None, additional: Additional::Forbidden }
}

/// The schema of `ZeroClawService.RecallMemory`: the arguments for recalling memories.
pub open spec fn recall_memory_schema() -> SchemaView {
    SchemaView {
        properties: Some(
            Seq::<FieldView>::empty()
                .push(plain_field("query"@, FieldType::String, "Memory recall query"@))
                .push(plain_field("limit"@, FieldType::Number, "Maximum memories to return"@)),
        ),
        required: Some(Seq::<Seq<char>>::empty().push("query"@)),
        additional: Additional::Unspecified,
    }
}

fn build_recall_memory_schema() -> (schema: ToolSchema)
    ensures
        schema@ == recall_memory_schema(),
{
    let mut fields: Vec<SchemaField> = Vec::new();
    proof {
        assert(fields_view(fields@) =~= Seq::<FieldView>::empty());
    }
    add_field(&mut fields, "query", FieldType::String, "Memory recall query", Additional::Unspecified, None);
    add_field(&mut fields, "limit", FieldType::Number, "Maximum memories to return", Additional::Unspecified, None);
    let mut required: Vec<String> = Vec::new();
    proof {
        assert(strings_view(required@) =~= Seq::<Seq<char>>::empty());
    }
    add_name(&mut required, "query");
    ToolSchema { properties: Some(fields), required: Some(required), additional: Additional::Unspecified }
}

/// The schema of `ZeroClawService.Shutdown`: the arguments for shutting an instance down.
pub open spec fn shutdown_schema() -> SchemaView {
    SchemaView {
        properties: Some(
            Seq::<FieldView>::empty()
                .push(plain_field("graceful"@, FieldType::Boolean, "Wait for in-flight work to finish"@)),
        ),
        required: None,
        additional: Additional::Unspecified,
    }
}

fn build_shutdown_schema() -> (schema: ToolSchema)
    ensures
        schema@ == shutdown_schema(),
{
    let mut fields: Vec<SchemaField> = Vec::new();
    proof {
        assert(fields_view(fields@) =~= Seq::<FieldView>::empty());
    }
    add_field(&mut fields, "graceful", FieldType::Boolean, "Wait for in-flight work to finish", Additional::Unspecified, None);
    ToolSchema { properties: Some(fields), required: None, additional: Additional::Unspecified }
}

/// The schema on record for `service.method`; `None` for a pair that has none
/// on record.
pub open spec fn known_schema_of(service: Seq<char>, method: Seq<char>) -> Option<SchemaView> {
    if service == "AgentToolsService"@ && method == "ExecCommand"@ {
        Some(exec_command_schema())
    } else if service == "AgentToolsService"@ && method == "ReadFile"@ {
        Some(read_file_schema())
    } else if service == "AgentToolsService"@ && method == "WriteFile"@ {
        Some(write_file_schema())
    } else if service == "AgentToolsService"@ && method == "ListFiles"@ {
        Some(list_files_schema())
    } else if service == "AgentToolsService"@ && method == "SearchCodebase"@ {
        Some(search_codebase_schema())
    } else if service == "ZeroClawService"@ && method == "SendMessage"@ {
        Some(send_message_schema())
    } else if service == "ZeroClawService"@ && method == "GetStatus"@ {
        Some(get_status_schema())
    } else if service == "ZeroClawService"@ && method == "RecallMemory"@ {
        Some(recall_memory_schema())
    } else if service == "ZeroClawService"@ && method == "Shutdown"@ {
        Some(shutdown_schema())
    } else {
        None
    }
}

/// The schema on record for a well-known method, if there is one.
pub fn known_schema(service: &str, method: &str) -> (schema: Option<ToolSchema>)
    ensures
        match schema {
            Some(s) => known_schema_of(service@, method@) == Some(s@),
            None => known_schema_of(service@, method@) is None,
        },
{
    if str_eq(service, "AgentToolsService") && str_eq(method, "ExecCommand") {
        Some(build_exec_command_schema())
    } else if str_eq(service, "AgentToolsService") && str_eq(method, "ReadFile") {
        Some(build_read_file_schema())
    } else if str_eq(service, "AgentToolsService") && str_eq(method, "WriteFile") {
        Some(build_write_file_schema())
    } else if str_eq(service, "AgentToolsService") && str_eq(method, "ListFiles") {
        Some(build_list_files_schema())
    } else if str_eq(service, "AgentToolsService") && str_eq(method, "SearchCodebase") {
        Some(build_search_codebase_schema())
    } else if str_eq(service, "ZeroClawService") && str_eq(method, "SendMessage") {
        Some(build_send_message_schema())
    } else if str_eq(service, "ZeroClawService") && str_eq(method, "GetStatus") {
        Some(build_get_status_schema())
    } else if str_eq(service, "ZeroClawService") && str_eq(method, "RecallMemory") {
        Some(build_recall_memory_schema())
    } else if str_eq(service, "ZeroClawService") && str_eq(method, "Shutdown") {
        Some(build_shutdown_schema())
    } else {
        None
    }
}

/// The fallback schema: an object that accepts any member.
pub open spec fn generic_schema_view() -> SchemaView {
    SchemaView { properties: None, required: None, additional: Additional::Allowed }
}

/// The maximally permissive schema, for methods without one on record.
pub fn generic_schema() -> (schema: ToolSchema)
    ensures
        schema@ == generic_schema_view(),
{
    ToolSchema { properties: None, required: None, additional: Additional::Allowed }
}

/// The schema under which `service.method` is offered: the one on record, else
/// the fallback.
pub open spec fn schema_of(service: Seq<char>, method: Seq<char>) -> SchemaView {
    match known_schema_of(service, method) {
        Some(s) => s,
        None => generic_schema_view(),
    }
}

/// The description of `service.method`: the text on record for a well-known
/// method, else a sentence that names the service and the method.
pub open spec fn known_description_of(service: Seq<char>, method: Seq<char>) -> Seq<char> {
    if service == "AgentToolsService"@ && method == "ExecCommand"@ {
        "Execute a shell command in a sandbox"@
    } else if service == "AgentToolsService"@ && method == "ReadFile"@ {
        "Read a file from a sandbox filesystem"@
    } else if service == "AgentToolsService"@ && method == "WriteFile"@ {
        "Write a file to a sandbox filesystem"@
    } else if service == "AgentToolsService"@ && method == "ListFiles"@ {
        "List files in a sandbox directory"@
    } else if service == "AgentToolsService"@ && method == "SearchCodebase"@ {
        "Search code in a sandbox using ripgrep"@
    } else if service == "ZeroClawService"@ && method == "SendMessage"@ {
        "Send a message to a ZeroClaw instance"@
    } else if service == "ZeroClawService"@ && method == "GetStatus"@ {
        "Get status of a ZeroClaw instance"@
    } else if service == "ZeroClawService"@ && method == "RecallMemory"@ {
        "Recall memories from a ZeroClaw instance"@
    } else if service == "ZeroClawService"@ && method == "Shutdown"@ {
        "Shutdown a ZeroClaw instance"@
    } else {
        "Call "@ + service + "."@ + method + " via Dink RPC"@
    }
}

/// A human-readable description of a method.
pub fn known_description(service: &str, method: &str) -> (description: String)
    ensures
        description@ == known_description_of(service@, method@),
{
    if str_eq(service, "AgentToolsService") && str_eq(method, "ExecCommand") {
        owned("Execute a shell command in a sandbox")
    } else if str_eq(service, "AgentToolsService") && str_eq(method, "ReadFile") {
        owned("Read a file from a sandbox filesystem")
    } else if str_eq(service, "AgentToolsService") && str_eq(method, "WriteFile") {
        owned("Write a file to a sandbox filesystem")
    } else if str_eq(service, "AgentToolsService") && str_eq(method, "ListFiles") {
        owned("List files in a sandbox directory")
    } else if str_eq(service, "AgentToolsService") && str_eq(method, "SearchCodebase") {
        owned("Search code in a sandbox using ripgrep")
    } else if str_eq(service, "ZeroClawService") && str_eq(method, "SendMessage") {
        owned("Send a message to a ZeroClaw instance")
    } else if str_eq(service, "ZeroClawService") && str_eq(method, "GetStatus") {
        owned("Get status of a ZeroClaw instance")
    } else if str_eq(service, "ZeroClawService") && str_eq(method, "RecallMemory") {
        owned("Recall memories from a ZeroClaw instance")
    } else if str_eq(service, "ZeroClawService") && str_eq(method, "Shutdown") {
        owned("Shutdown a ZeroClaw instance")
    } else {
        let mut description = owned("Call ");
        description.append(service);
        description.append(".");
        description.append(method);
        description.append(" via Dink RPC");
        description
    }
}

/// A peer as discovery reports it: its address and the names of the services
/// that it advertises.
#[derive(Debug, Clone)]
pub struct EdgeInfo {
    pub id: String,
    pub services: Vec<String>,
}

/// The mathematical content of an [`EdgeInfo`].
pub struct EdgeView {
    pub id: Seq<char>,
    pub services: Seq<Seq<char>>,
}

impl View for EdgeInfo {
    type V = EdgeView;

    open spec fn view(&self) -> EdgeView {
        EdgeView { id: self.id@, services: strings_view(self.services@) }
    }
}

/// The contents of a list of peers.
pub open spec fn edges_view(edges: Seq<EdgeInfo>) -> Seq<EdgeView> {
    edges.map_values(|e: EdgeInfo| e@)
}

/// The contents of a list of tools.
pub open spec fn tools_view(tools: Seq<DinkServiceTool>) -> Seq<ToolView> {
    tools.map_values(|t: DinkServiceTool| t@)
}

/// Whether the configuration admits a service: by its name, or by the
/// wildcard `*`.
pub open spec fn service_allowed(allowed: Seq<Seq<char>>, service: Seq<char>) -> bool {
    allowed.contains("*"@) || allowed.contains(service)
}

/// The tool for one method of a service on a peer.
pub open spec fn tool_for(edge: Seq<char>, service: Seq<char>, method: Seq<char>) -> ToolView {
    tool_view(edge, service, method, known_description_of(service, method), schema_of(service, method))
}

/// The tools for the first `n` known methods of a service on a peer.
pub open spec fn tools_for_methods(edge: Seq<char>, service: Seq<char>, n: nat) -> Seq<ToolView>
    decreases n,
{
    if n == 0 || n > known_methods_of(service).len() {
        Seq::empty()
    } else {
        tools_for_methods(edge, service, (n - 1) as nat).push(
            tool_for(edge, service, known_methods_of(service)[n - 1]),
        )
    }
}

/// The tools for one advertised service of a peer: one per known method where
/// the service is admitted, none otherwise.
pub open spec fn tools_for_service(allowed: Seq<Seq<char>>, edge: Seq<char>, service: Seq<char>) -> Seq<
    ToolView,
> {
    if service_allowed(allowed, service) {
        tools_for_methods(edge, service, known_methods_of(service).len())
    } else {
        Seq::empty()
    }
}

/// The tools for the first `n` advertised services of a peer.
pub open spec fn tools_for_services(allowed: Seq<Seq<char>>, edge: EdgeView, n: nat) -> Seq<ToolView>
    decreases n,
{
    if n == 0 || n > edge.services.len() {
        Seq::empty()
    } else {
        tools_for_services(allowed, edge, (n - 1) as nat) + tools_for_service(
            allowed,
            edge.id,
            edge.services[n - 1],
        )
    }
}

/// The tools for the first `n` peers.
pub open spec fn tools_for_edges(allowed: Seq<Seq<char>>, edges: Seq<EdgeView>, n: nat) -> Seq<ToolView>
    decreases n,
{
    if n == 0 || n > edges.len() {
        Seq::empty()
    } else {
        tools_for_edges(allowed, edges, (n - 1) as nat) + tools_for_services(
            allowed,
            edges[n - 1],
            edges[n - 1].services.len(),
        )
    }
}

/// All tools that discovery yields: peer by peer, service by service in the
/// order advertised, method by method in the order of the table.
pub open spec fn discovered(allowed: Seq<Seq<char>>, edges: Seq<EdgeView>) -> Seq<ToolView> {
    tools_for_edges(allowed, edges, edges.len())
}

/// Turns the services that peers advertise into callable tools.
pub struct DinkToolProvider;

impl DinkToolProvider {
    /// Produces one tool for each known method of each admitted service of
    /// each online peer. `allowed` holds the service names that the
    /// configuration admits (`*` admits all); `edges` holds the peers that
    /// discovery reported online.
    pub fn discover(allowed: &Vec<String>, edges: &Vec<EdgeInfo>) -> (tools: Vec<DinkServiceTool>)
        ensures
            tools_view(tools@) == discovered(strings_view(allowed@), edges_view(edges@)),
    {
        let mut tools: Vec<DinkServiceTool> = Vec::new();
        let ghost allow = strings_view(allowed@);
        let ghost peers = edges_view(edges@);
        proof {
            assert(tools_view(tools@) =~= Seq::<ToolView>::empty());
        }
        if allowed.len() == 0 {
            proof {
                lemma_nothing_allowed(allow, peers, peers.len());
            }
            return tools;
        }
        let wildcard = contains_str(allowed, "*");
        let mut i: usize = 0;
        while i < edges.len()
            invariant
                i <= edges.len(),
                allow == strings_view(allowed@),
                peers == edges_view(edges@),
                wildcard == allow.contains("*"@),
                tools_view(tools@) == tools_for_edges(allow, peers, i as nat),
            decreases edges.len() - i,
        {
            let edge = &edges[i];
            let ghost before = tools_view(tools@);
            assert(peers[i as int] == edge@);
            let mut j: usize = 0;
            while j < edge.services.len()
                invariant
                    j <= edge.services.len(),
                    allow == strings_view(allowed@),
                    wildcard == allow.contains("*"@),
                    tools_view(tools@) == before + tools_for_services(allow, edge@, j as nat),
                decreases edge.services.len() - j,
            {
                let service = &edge.services[j];
                let ghost start = tools_view(tools@);
                assert(edge@.services[j as int] == service@);
                let admitted = wildcard || contains_str(allowed, service.as_str());
                if admitted {
                    let methods = known_methods(service.as_str());
                    let mut k: usize = 0;
                    while k < methods.len()
                        invariant
                            k <= methods.len(),
                            strs_view(methods@) == known_methods_of(service@),
                            tools_view(tools@) == start + tools_for_methods(
                                edge@.id,
                                service@,
                                k as nat,
                            ),
                        decreases methods.len() - k,
                    {
                        let method = methods[k];
                        assert(strs_view(methods@)[k as int] == method@);
                        let schema = match known_schema(service.as_str(), method) {
                            Some(s) => s,
                            None => generic_schema(),
                        };
                        let description = known_description(service.as_str(), method);
                        let tool = DinkServiceTool::new(
                            edge.id.clone(),
                            service.clone(),
                            owned(method),
                            description,
                            schema,
                        );
                        let ghost previous = tools_view(tools@);
                        let ghost made = tool@;
                        tools.push(tool);
                        proof {
                            assert(known_methods_of(service@)[k as int] == method@);
                            assert(made == tool_for(edge@.id, service@, method@));
                            assert(tools_view(tools@) =~= previous.push(made));
                            assert(tools_for_methods(edge@.id, service@, (k + 1) as nat)
                                == tools_for_methods(edge@.id, service@, k as nat).push(made));
                            assert(tools_view(tools@) =~= start + tools_for_methods(
                                edge@.id,
                                service@,
                                (k + 1) as nat,
                            ));
                        }
                        k += 1;
                    }
                }
                proof {
                    assert(tools_view(tools@) =~= before + tools_for_services(
                        allow,
                        edge@,
                        (j + 1) as nat,
                    ));
                }
                j += 1;
            }
            proof {
                assert(tools_view(tools@) =~= tools_for_edges(allow, peers, (i + 1) as nat));
            }
            i += 1;
        }
        tools
    }
}

/// With nothing admitted, no peer yields a tool.
proof fn lemma_nothing_allowed(allowed: Seq<Seq<char>>, edges: Seq<EdgeView>, n: nat)
    requires
        allowed.len() == 0,
        n <= edges.len(),
    ensures
        tools_for_edges(allowed, edges, n) == Seq::<ToolView>::empty(),
    decreases n,
{
    if n > 0 {
        lemma_nothing_allowed(allowed, edges, (n - 1) as nat);
        lemma_no_service_allowed(allowed, edges[n - 1], edges[n - 1].services.len());
    }
}

/// With nothing admitted, no service of a peer yields a tool.
proof fn lemma_no_service_allowed(allowed: Seq<Seq<char>>, edge: EdgeView, n: nat)
    requires
        allowed.len() == 0,
        n <= edge.services.len(),
    ensures
        tools_for_services(allowed, edge, n) == Seq::<ToolView>::empty(),
    decreases n,
{
    if n > 0 {
        lemma_no_service_allowed(allowed, edge, (n - 1) as nat);
    }
}

/// A tool that the transport contributes to the registry.
#[derive(Debug)]
pub enum DinkTool {
    /// A method of a service on a peer.
    Service(DinkServiceTool),
    /// The tool for messages between instances.
    Peer(PeerMessageTool),
}

/// Whether one configured service name asks for the peer tool.
pub open spec fn names_peers(service: Seq<char>) -> bool {
    service == "*"@ || is_substring("peer"@, service)
}

/// Whether the configuration asks for the peer tool: by the wildcard, or by
/// a service name that holds `peer`.
pub open spec fn wants_peer_tool(services: Seq<Seq<char>>) -> bool {
    exists|i: int| 0 <= i < services.len() && names_peers(#[trigger] services[i])
}

/// Whether the peer tool is to be offered.
pub fn peer_tool_wanted(services: &Vec<String>) -> (r: bool)
    ensures
        r == wants_peer_tool(strings_view(services@)),
{
    let mut i: usize = 0;
    while i < services.len()
        invariant
            i <= services.len(),
            forall|k: int| 0 <= k < i ==> !names_peers(#[trigger] strings_view(services@)[k]),
        decreases services.len() - i,
    {
        let s = services[i].as_str();
        assert(strings_view(services@)[i as int] == s@);
        if str_eq(s, "*") || contains_substring(s, "peer") {
            return true;
        }
        i += 1;
    }
    false
}

/// The service tools of a list of tools, wrapped for the registry.
pub open spec fn as_service_tools(tools: Seq<DinkServiceTool>) -> Seq<DinkTool> {
    tools.map_values(|t: DinkServiceTool| DinkTool::Service(t))
}

/// What the transport adds to the registry: nothing where it is disabled;
/// else the discovered tools, in order (none where discovery failed),
/// followed by the peer tool where the configuration asks for it.
pub open spec fn added_tools(
    enabled: bool,
    services: Seq<Seq<char>>,
    discovered: Option<Seq<DinkServiceTool>>,
) -> Seq<DinkTool> {
    if !enabled {
        Seq::empty()
    } else {
        let found = match discovered {
            Some(tools) => as_service_tools(tools),
            None => Seq::empty(),
        };
        if wants_peer_tool(services) {
            found.push(DinkTool::Peer(PeerMessageTool))
        } else {
            found
        }
    }
}

/// Adds the transport's tools to a registry. `discovered` holds what
/// discovery yielded, or `None` where it failed: a failed discovery adds no
/// service tool and is no reason to leave out the peer tool.
pub fn add_dink_tools(
    tools: &mut Vec<DinkTool>,
    enabled: bool,
    services: &Vec<String>,
    discovered: Option<Vec<DinkServiceTool>>,
)
    ensures
        final(tools)@ == old(tools)@ + added_tools(
            enabled,
            strings_view(services@),
            match discovered {
                Some(d) => Some(d@),
                None => None,
            },
        ),
{
    if !enabled {
        proof {
            assert(tools@ =~= old(tools)@ + Seq::<DinkTool>::empty());
        }
        return ;
    }
    let ghost found: Seq<DinkTool> = if discovered is Some {
        as_service_tools(discovered->0@)
    } else {
        Seq::empty()
    };
    match discovered {
        Some(list) => {
            let ghost all = list@;
            let ghost start = tools@;
            proof {
                assert(tools@ =~= start + as_service_tools(all.subrange(0, 0)));
            }
            for t in it: list
                invariant
                    it.seq() == all,
                    start == old(tools)@,
                    tools@ == start + as_service_tools(all.subrange(0, it.index() as int)),
            {
                tools.push(DinkTool::Service(t));
                proof {
                    assert(tools@ =~= start + as_service_tools(
                        all.subrange(0, it.index() + 1),
                    ));
                }
            }
            proof {
                assert(all.subrange(0, all.len() as int) == all);
            }
        },
        None => {
            proof {
                assert(tools@ =~= old(tools)@ + found);
            }
        },
    }
    if peer_tool_wanted(services) {
        tools.push(DinkTool::Peer(PeerMessageTool::new()));
        proof {
            assert(tools@ =~= old(tools)@ + found.push(DinkTool::Peer(PeerMessageTool)));
        }
    }
}

} // verus!
