use dink_bridge::schema::{Additional, FieldType};
use dink_bridge::tool_provider::{
    generic_schema, known_description, known_methods, known_schema, DinkToolProvider, EdgeInfo,
};

#[test]
fn known_schemas_are_valid_json_schema() {
    let cases = vec![
        ("AgentToolsService", "ExecCommand"),
        ("AgentToolsService", "ReadFile"),
        ("AgentToolsService", "WriteFile"),
        ("AgentToolsService", "ListFiles"),
        ("AgentToolsService", "SearchCodebase"),
        ("ZeroClawService", "SendMessage"),
        ("ZeroClawService", "GetStatus"),
        ("ZeroClawService", "RecallMemory"),
        ("ZeroClawService", "Shutdown"),
    ];

    for (svc, method) in &cases {
        let schema = known_schema(svc, method)
            .unwrap_or_else(|| panic!("missing schema for {svc}.{method}"));
        assert_eq!(schema.json_type(), "object", "{svc}.{method} schema type");
        assert!(
            schema.properties.is_some(),
            "{svc}.{method} should have properties"
        );
    }
}

#[test]
fn unknown_service_returns_none() {
    assert!(known_schema("UnknownService", "Foo").is_none());
}

#[test]
fn generic_schema_is_permissive() {
    let s = generic_schema();
    assert_eq!(s.json_type(), "object");
    assert_eq!(s.additional, Additional::Allowed);
}

#[test]
fn known_description_returns_specific_text() {
    let desc = known_description("AgentToolsService", "ExecCommand");
    assert!(desc.contains("shell command"), "got: {desc}");
}

#[test]
fn unknown_description_includes_service_and_method() {
    let desc = known_description("Foo", "Bar");
    assert!(desc.contains("Foo") && desc.contains("Bar"), "got: {desc}");
}

#[test]
fn known_methods_returns_expected_counts() {
    assert!(known_methods("AgentToolsService").len() >= 5);
    assert!(known_methods("ZeroClawService").len() >= 4);
    assert!(known_methods("UnknownService").is_empty());
}

#[test]
fn known_methods_lists_the_table_in_order() {
    assert_eq!(
        known_methods("ZeroClawService"),
        vec!["SendMessage", "GetStatus", "RecallMemory", "UpdateConfig", "Shutdown"]
    );
    assert_eq!(known_methods("AgentToolsService").len(), 9);
    assert_eq!(known_methods("WorkspaceService").len(), 4);
    assert_eq!(known_methods("AgentService").len(), 6);
    assert!(known_methods("agenttoolsservice").is_empty());
    assert!(known_methods("ZeroClaw").is_empty());
}

#[test]
fn unknown_description_has_the_exact_wording() {
    assert_eq!(known_description("Foo", "Bar"), "Call Foo.Bar via Dink RPC");
    assert_eq!(
        known_description("ZeroClawService", "UpdateConfig"),
        "Call ZeroClawService.UpdateConfig via Dink RPC"
    );
    assert_eq!(
        known_description("ZeroClawService", "Shutdown"),
        "Shutdown a ZeroClaw instance"
    );
}

#[test]
fn exec_command_schema_lists_its_arguments() {
    let s = known_schema("AgentToolsService", "ExecCommand").unwrap();
    let props = s.properties.unwrap();
    let names: Vec<&str> = props.iter().map(|f| f.name.as_str()).collect();
    assert_eq!(names, vec!["command", "cwd", "env", "timeoutMs", "sandboxId"]);
    assert_eq!(props[0].kind, FieldType::String);
    assert_eq!(props[0].description, "Shell command to execute");
    assert_eq!(props[2].kind, FieldType::Object);
    assert_eq!(props[2].additional, Additional::Strings);
    assert_eq!(props[3].kind, FieldType::Number);
    assert_eq!(s.required, Some(vec!["command".to_string(), "sandboxId".to_string()]));
    assert_eq!(s.additional, Additional::Unspecified);
}

#[test]
fn get_status_schema_takes_no_arguments() {
    let s = known_schema("ZeroClawService", "GetStatus").unwrap();
    assert_eq!(s.properties.map(|p| p.len()), Some(0));
    assert!(s.required.is_none());
    assert_eq!(s.additional, Additional::Forbidden);
}

#[test]
fn schema_needs_an_exact_pair() {
    assert!(known_schema("ZeroClawService", "UpdateConfig").is_none());
    assert!(known_schema("ZeroClawService", "ExecCommand").is_none());
    assert!(known_schema("AgentToolsService", "Exec").is_none());
}

fn edge(id: &str, services: &[&str]) -> EdgeInfo {
    EdgeInfo { id: id.to_string(), services: services.iter().map(|s| s.to_string()).collect() }
}

#[test]
fn discovery_yields_one_tool_per_known_method() {
    let allowed = vec!["ZeroClawService".to_string()];
    let edges = vec![edge("e1", &["AgentToolsService", "ZeroClawService", "Mystery"])];
    let tools = DinkToolProvider::discover(&allowed, &edges);
    let names: Vec<&str> = tools.iter().map(|t| t.name()).collect();
    assert_eq!(
        names,
        vec![
            "dink_zero_claw_send_message",
            "dink_zero_claw_get_status",
            "dink_zero_claw_recall_memory",
            "dink_zero_claw_update_config",
            "dink_zero_claw_shutdown",
        ]
    );
    assert!(tools.iter().all(|t| t.edge_id() == "e1"));
    assert_eq!(tools[0].description(), "Send a message to a ZeroClaw instance");
    assert!(tools[0].parameters_schema().properties.is_some());
    assert_eq!(tools[3].description(), "Call ZeroClawService.UpdateConfig via Dink RPC");
    assert!(tools[3].parameters_schema().properties.is_none());
    assert_eq!(tools[3].parameters_schema().additional, Additional::Allowed);
}

#[test]
fn wildcard_admits_every_known_service() {
    let allowed = vec!["*".to_string()];
    let edges = vec![
        edge("e1", &["WorkspaceService", "Unknown"]),
        edge("e2", &[]),
        edge("e3", &["AgentService"]),
    ];
    let tools = DinkToolProvider::discover(&allowed, &edges);
    assert_eq!(tools.len(), 4 + 6);
    assert_eq!(tools[0].name(), "dink_workspace_create_sandbox");
    assert_eq!(tools[0].edge_id(), "e1");
    assert_eq!(tools[4].name(), "dink_agent_create_session");
    assert_eq!(tools[4].edge_id(), "e3");
}

#[test]
fn unknown_services_are_inert() {
    let allowed = vec!["*".to_string()];
    let edges = vec![edge("e1", &["Mystery", "OtherService"])];
    assert!(DinkToolProvider::discover(&allowed, &edges).is_empty());
}

#[test]
fn nothing_allowed_yields_nothing() {
    let edges = vec![edge("e1", &["ZeroClawService"])];
    assert!(DinkToolProvider::discover(&Vec::new(), &edges).is_empty());
    let allowed = vec!["AgentToolsService".to_string()];
    assert!(DinkToolProvider::discover(&allowed, &edges).is_empty());
    assert!(DinkToolProvider::discover(&allowed, &Vec::new()).is_empty());
}
