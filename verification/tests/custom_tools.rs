use winter_mcp::custom_tools::{
    apply_tool_update, approval_notice, auto_approval, check_new_tool_name, check_tool_update,
    find_tool_by_name, new_tool_record, run_failure_message, run_permissions, sandbox_permissions,
    secret_notice,
    secret_request,
    tool_status_name,
};
use winter_mcp::secrets::SecretManager;
use winter_mcp::json::JsonValue;
use winter_mcp::media::FacetFeature;
use winter_mcp::permissions::{CustomTool, PermissionVec, ToolApproval, ToolApprovalStatus};

fn s(x: &str) -> JsonValue {
    JsonValue::String(x.to_string())
}

fn args(members: Vec<(&str, JsonValue)>) -> Vec<(String, JsonValue)> {
    members.into_iter().map(|(k, v)| (k.to_string(), v)).collect()
}

fn schema() -> JsonValue {
    JsonValue::Object(vec![("type".to_string(), s("object"))])
}

#[test]
fn tool_names_are_checked() {
    assert_eq!(check_new_tool_name(&args(vec![("name", s("my_tool_2"))])).unwrap(), "my_tool_2");
    assert_eq!(
        check_new_tool_name(&args(vec![])).unwrap_err(),
        "Missing required parameter: name"
    );
    assert_eq!(
        check_new_tool_name(&args(vec![("name", s("bad-name"))])).unwrap_err(),
        "Tool name must be alphanumeric with underscores only"
    );
    assert_eq!(
        check_new_tool_name(&args(vec![("name", s("é"))])).unwrap_err(),
        "Tool name must be alphanumeric with underscores only"
    );
    assert_eq!(
        check_new_tool_name(&args(vec![("name", s(&"a".repeat(65)))])).unwrap_err(),
        "Tool name too long (max 64 chars)"
    );
}

#[test]
fn new_tool_record_takes_arguments() {
    let a = args(vec![
        ("description", s("adds")),
        ("code", s("return a + b;")),
        ("input_schema", schema()),
        ("requires_network", JsonValue::Bool(false)),
        ("requires_workspace", JsonValue::Bool(true)),
        ("required_tools", JsonValue::Array(vec![s("query_facts"), JsonValue::Null])),
    ]);
    let t = new_tool_record("adder".to_string(), a).unwrap();
    assert_eq!(t.name, "adder");
    assert_eq!(t.version, 1);
    assert_eq!(t.description, "adds");
    assert_eq!(t.code, "return a + b;");
    assert_eq!(t.input_schema, schema());
    assert_eq!(t.requires_network, Some(false));
    assert_eq!(t.requires_workspace, Some(true));
    assert_eq!(t.required_tools, vec!["query_facts".to_string()]);
    assert!(t.required_secrets.is_empty());
}

#[test]
fn new_tool_record_refusals() {
    let e = new_tool_record("x".to_string(), args(vec![("code", s("c"))])).unwrap_err();
    assert_eq!(e, "Missing required parameter: description");
    let e = new_tool_record("x".to_string(), args(vec![("description", s("d"))])).unwrap_err();
    assert_eq!(e, "Missing required parameter: code");
    let big = "x".repeat(65537);
    let e = new_tool_record(
        "x".to_string(),
        args(vec![("description", s("d")), ("code", s(&big)), ("input_schema", schema())]),
    )
    .unwrap_err();
    assert_eq!(e, "Code exceeds maximum size of 64KB");
    let e = new_tool_record("x".to_string(), args(vec![("description", s("d")), ("code", s("c"))]))
        .unwrap_err();
    assert_eq!(e, "Missing required parameter: input_schema");
}

#[test]
fn tool_update_bumps_version_and_replaces_given_fields() {
    let t = new_tool_record(
        "adder".to_string(),
        args(vec![
            ("description", s("adds")),
            ("code", s("v1")),
            ("input_schema", schema()),
            ("required_secrets", JsonValue::Array(vec![s("KEY")])),
            ("requires_workspace", JsonValue::Bool(true)),
        ]),
    )
    .unwrap();
    let a = args(vec![
        ("name", s("adder")),
        ("code", s("v2")),
        ("requires_workspace", JsonValue::Bool(false)),
        ("required_tools", JsonValue::Array(vec![s("get_note")])),
    ]);
    let (name, code) = check_tool_update(&a).unwrap();
    assert_eq!(name, "adder");
    let u = apply_tool_update(t, a, code);
    assert_eq!(u.version, 2);
    assert_eq!(u.code, "v2");
    assert_eq!(u.description, "adds");
    assert_eq!(u.requires_workspace, None);
    assert_eq!(u.required_secrets, vec!["KEY".to_string()]);
    assert_eq!(u.required_tools, vec!["get_note".to_string()]);
    assert_eq!(u.input_schema, schema());
}

#[test]
fn tool_update_refusals() {
    assert_eq!(
        check_tool_update(&args(vec![("code", s("c"))])).unwrap_err(),
        "Missing required parameter: name"
    );
    assert_eq!(
        check_tool_update(&args(vec![("name", s("n"))])).unwrap_err(),
        "Missing required parameter: code"
    );
}

#[test]
fn auto_approval_grants_what_a_safe_tool_asks() {
    let t = new_tool_record(
        "reader".to_string(),
        args(vec![
            ("description", s("reads")),
            ("code", s("return 1;")),
            ("input_schema", schema()),
            ("required_tools", JsonValue::Array(vec![s("get_note"), s("query_facts")])),
        ]),
    )
    .unwrap();
    let a = auto_approval(&t, false);
    assert_eq!(a.status, ToolApprovalStatus::Approved);
    assert_eq!(a.tool_version, 1);
    assert_eq!(a.allow_network, Some(false));
    assert_eq!(a.approved_by.as_deref(), Some("auto"));
    assert_eq!(a.reason.as_deref(), Some("Auto-approved: safe tool"));
    assert!(PermissionVec::from_approval(&a).dominates(&PermissionVec::from_tool(&t)));
    let b = auto_approval(&t, true);
    assert_eq!(
        b.reason.as_deref(),
        Some("Auto-approved: safe tool (no network, no secrets)")
    );
}

fn approval(status: ToolApprovalStatus, version: i32) -> ToolApproval {
    ToolApproval {
        tool_version: version,
        status,
        approved_by: None,
        reason: None,
        allow_network: None,
        allowed_secrets: Vec::new(),
        allowed_commands: Vec::new(),
        allowed_tools: Vec::new(),
    }
}

#[test]
fn tool_status_names() {
    assert_eq!(tool_status_name(&None, 3), "pending");
    assert_eq!(tool_status_name(&Some(approval(ToolApprovalStatus::Approved, 3)), 3), "approved");
    assert_eq!(tool_status_name(&Some(approval(ToolApprovalStatus::Approved, 2)), 3), "outdated");
    assert_eq!(tool_status_name(&Some(approval(ToolApprovalStatus::Pending, 3)), 3), "outdated");
}

#[test]
fn approval_notice_links_review_page() {
    let (msg, facet) = approval_notice(
        "fetch_weather",
        "3abc",
        &vec!["API_KEY".to_string(), "TOKEN".to_string()],
        &vec!["curl".to_string()],
        "http://localhost:8080",
    );
    let url = "http://localhost:8080/tools/3abc";
    assert_eq!(
        msg,
        format!(
            "I created/updated a tool \"fetch_weather\" that needs your approval.\n\nRequired secrets: API_KEY, TOKEN\nRequired commands: curl\n\nPlease review at {}",
            url
        )
    );
    let (a, b) = (facet.index.byte_start as usize, facet.index.byte_end as usize);
    assert_eq!(&msg[a..b], url);
    assert!(matches!(&facet.features[0], FacetFeature::Link { uri } if uri == url));
}

#[test]
fn approval_notice_without_secrets_or_commands() {
    let (msg, facet) = approval_notice("naïve_tool", "k", &vec![], &vec![], "https://winter.example");
    assert!(msg.starts_with("I created/updated a tool \"naïve_tool\" that needs your approval.\n\nRequired secrets: None\n\nPlease review at "));
    assert_eq!(&msg[facet.index.byte_start as usize..facet.index.byte_end as usize], "https://winter.example/tools/k");
    assert_eq!(facet.index.byte_end as usize, msg.len());
}

fn granted(tools: Vec<&str>, network: Option<bool>) -> ToolApproval {
    ToolApproval {
        tool_version: 2,
        status: ToolApprovalStatus::Approved,
        approved_by: Some("operator".to_string()),
        reason: None,
        allow_network: network,
        allowed_secrets: vec!["API_KEY".to_string(), "MISSING".to_string()],
        allowed_commands: vec!["git".to_string()],
        allowed_tools: tools.into_iter().map(String::from).collect(),
    }
}

fn store() -> SecretManager {
    let mut m = SecretManager::new();
    m.set("API_KEY", "k-123").unwrap();
    m.set("OTHER", "o").unwrap();
    m
}

#[test]
fn run_permissions_for_approved_tool() {
    let (p, sandboxed) = run_permissions(
        Some(granted(vec!["post_to_bluesky"], Some(true))),
        2,
        &store(),
        vec![("helper".to_string(), "at://did:plc:me/tool/1".to_string())],
        Some("tok".to_string()),
        None,
    );
    assert!(!sandboxed);
    assert!(p.network);
    assert_eq!(p.secrets, vec![("WINTER_SECRET_API_KEY".to_string(), "k-123".to_string())]);
    assert_eq!(p.allowed_commands, vec!["git".to_string()]);
    assert_eq!(p.allowed_tools, vec!["post_to_bluesky".to_string()]);
    assert_eq!(p.tool_name_map.len(), 1);
    assert_eq!(p.tool_token, Some("tok".to_string()));
    assert_eq!(p.mcp_url, Some("http://127.0.0.1:3847".to_string()));
    assert!(p.workspace.is_none());
}

#[test]
fn run_permissions_without_chaining() {
    let (p, sandboxed) = run_permissions(
        Some(granted(vec![], None)),
        2,
        &store(),
        vec![],
        Some("tok".to_string()),
        Some("http://127.0.0.1:9000"),
    );
    assert!(!sandboxed);
    assert!(!p.network);
    assert_eq!(p.tool_token, None);
    assert_eq!(p.mcp_url, None);
    let (p, _) = run_permissions(
        Some(granted(vec!["x"], Some(false))),
        2,
        &store(),
        vec![],
        None,
        Some("http://127.0.0.1:9000"),
    );
    assert_eq!(p.mcp_url, Some("http://127.0.0.1:9000".to_string()));
    assert_eq!(p.tool_token, None);
}

#[test]
fn run_permissions_sandbox_when_not_approved() {
    for approval in [None, Some(granted(vec!["x"], Some(true)))] {
        // version 3 is not the approved version 2
        let (p, sandboxed) = run_permissions(approval, 3, &store(), vec![], Some("t".to_string()), None);
        assert!(sandboxed);
        assert!(!p.network);
        assert!(p.secrets.is_empty());
        assert!(p.allowed_commands.is_empty());
        assert!(p.allowed_tools.is_empty());
        assert_eq!(p.tool_token, None);
        assert_eq!(p.mcp_url, None);
    }
}

#[test]
fn run_failure_messages() {
    assert_eq!(run_failure_message(true, "timeout"), "Tool execution failed (sandboxed mode): timeout");
    assert_eq!(run_failure_message(false, "boom"), "Tool execution failed: boom");
}

#[test]
fn secret_request_checks() {
    let known = vec!["EXISTING".to_string()];
    assert_eq!(
        secret_request(&args(vec![("name", s("NEW_KEY")), ("description", s("for x"))]), &known).unwrap(),
        ("NEW_KEY".to_string(), "for x".to_string())
    );
    assert_eq!(
        secret_request(&args(vec![("description", s("d"))]), &known).unwrap_err(),
        "Missing required parameter: name"
    );
    assert_eq!(
        secret_request(&args(vec![("name", s("bad-name")), ("description", s("d"))]), &known).unwrap_err(),
        "Secret name must be alphanumeric with underscores only"
    );
    assert_eq!(
        secret_request(&args(vec![("name", s(&"A".repeat(65))), ("description", s("d"))]), &known).unwrap_err(),
        "Secret name too long (max 64 chars)"
    );
    assert_eq!(
        secret_request(&args(vec![("name", s("K"))]), &known).unwrap_err(),
        "Missing required parameter: description"
    );
    assert_eq!(
        secret_request(&args(vec![("name", s("EXISTING")), ("description", s("d"))]), &known).unwrap_err(),
        "Secret 'EXISTING' already exists"
    );
}

#[test]
fn secret_notice_links_secrets_page() {
    let (msg, facet) = secret_notice("API_KEY", "weather — API", "http://localhost:8080");
    assert_eq!(
        msg,
        "I need a new secret \"API_KEY\".\n\nDescription: weather — API\n\nPlease add it at http://localhost:8080/secrets"
    );
    assert_eq!(
        &msg[facet.index.byte_start as usize..facet.index.byte_end as usize],
        "http://localhost:8080/secrets"
    );
}

#[test]
fn sandbox_grants_nothing() {
    let p = sandbox_permissions();
    assert!(!p.network);
    assert!(p.secrets.is_empty() && p.allowed_commands.is_empty() && p.allowed_tools.is_empty());
    assert!(p.workspace.is_none() && p.tool_token.is_none() && p.mcp_url.is_none());
}

fn named(name: &str) -> CustomTool {
    CustomTool {
        name: name.to_string(),
        description: "d".to_string(),
        version: 1,
        code: "return 1;".to_string(),
        input_schema: JsonValue::Null,
        requires_workspace: None,
        requires_network: None,
        required_secrets: vec![],
        required_commands: vec![],
        required_tools: vec![],
    }
}

#[test]
fn find_tool_by_name_first_match() {
    let records = vec![
        ("at://did:plc:me/diy.razorgirl.winter.tool/3a".to_string(), named("alpha")),
        ("at://did:plc:me/diy.razorgirl.winter.tool/3b".to_string(), named("beta")),
        ("at://did:plc:me/diy.razorgirl.winter.tool/3c".to_string(), named("beta")),
    ];
    assert_eq!(find_tool_by_name(&records, "beta"), Some((1, "3b".to_string())));
    assert_eq!(find_tool_by_name(&records, "alpha"), Some((0, "3a".to_string())));
    assert_eq!(find_tool_by_name(&records, "gamma"), None);
}
