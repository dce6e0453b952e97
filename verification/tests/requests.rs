use winter_mcp::custom_tools::{created_tool, run_report, session_needed, RunReport};
use winter_mcp::deno::{wrapper_script, DenoPermissions};
use winter_mcp::enrich::{
    enrich_request, EnrichmentOptions, EnrichmentSpec, EnrichmentType, FailureMode,
};
use winter_mcp::inbox::{items_at_least, Inbox, InboxItem};
use winter_mcp::json::{JsonNumber, JsonValue};
use winter_mcp::permissions::{parse_at_uri, CustomTool, ToolApproval, ToolApprovalStatus};
use winter_mcp::protocol::{parse_error_response, rpc_response, INTERNAL_ERROR, PARSE_ERROR};
use winter_mcp::query::{
    checked_extra_declarations_program, checked_query_wrapper, decl_parens_in_order,
    parens_in_order, query_facts_request,
};
use winter_mcp::strset::StrSet;

fn s(x: &str) -> JsonValue {
    JsonValue::String(x.to_string())
}

fn args(members: Vec<(&str, JsonValue)>) -> Vec<(String, JsonValue)> {
    members.into_iter().map(|(k, v)| (k.to_string(), v)).collect()
}

#[test]
fn query_facts_request_checks_in_order() {
    let e = query_facts_request(&args(vec![])).unwrap_err();
    assert_eq!(e, "Missing required parameter: query");
    let e = query_facts_request(&args(vec![("query", JsonValue::Bool(true))])).unwrap_err();
    assert_eq!(e, "Missing required parameter: query");
    let long = format!("p({})", "x".repeat(5000));
    let e = query_facts_request(&args(vec![("query", s(&long))])).unwrap_err();
    assert!(e.starts_with("Query too long: "));
    let e = query_facts_request(&args(vec![("query", s("p(X) ; rm"))])).unwrap_err();
    assert!(e.starts_with("Query contains forbidden pattern"));
    let q = query_facts_request(&args(vec![
        ("query", s("  score(X, N), N > 3, N < 9\n ")),
        ("extra_rules", s("r(X) :- p(X).")),
        ("extra_facts", JsonValue::Array(vec![s("p(1)"), JsonValue::Bool(false)])),
    ]))
    .unwrap();
    assert_eq!(q.query, "score(X, N), N > 3, N < 9");
    assert_eq!(q.extra_rules, Some("r(X) :- p(X).".to_string()));
    assert_eq!(q.extra_facts, Some(vec!["p(1)".to_string()]));
    assert_eq!(q.extra_declarations, None);
}

#[test]
fn reversed_parentheses_are_refused() {
    assert!(parens_in_order("p(X)"));
    assert!(parens_in_order("no parens"));
    assert!(!parens_in_order(") p ("));
    assert!(checked_query_wrapper(") p (", None, &vec![]).is_none());
    assert!(checked_query_wrapper("p(X)", None, &vec![]).is_some());
    assert!(decl_parens_in_order("tool_calls(n: number)"));
    assert!(!decl_parens_in_order("name) x ("));
    let mut declared = StrSet::new();
    let mut types: Vec<(String, Vec<String>)> = Vec::new();
    let r = checked_extra_declarations_program(
        &vec!["a(x: symbol)".to_string(), "b) (".to_string()],
        &mut declared,
        &mut types,
    );
    assert!(r.is_none());
    assert!(declared.is_empty() && types.is_empty());
    let r = checked_extra_declarations_program(&vec!["a(x: symbol)".to_string()], &mut declared, &mut types);
    assert_eq!(r, Some(".decl a(arg0: symbol)\n".to_string()));
}

fn spec() -> EnrichmentSpec {
    EnrichmentSpec {
        column: 0,
        enrichment_type: EnrichmentType::Profile,
        options: EnrichmentOptions { limit: None, since: None, depth: None },
        on_failure: None,
        max_retries: 0,
    }
}

#[test]
fn enrich_request_errors() {
    let e = enrich_request(&args(vec![("enrichments", JsonValue::Array(vec![]))]), Ok(vec![])).unwrap_err();
    assert_eq!(e, "Missing required parameter: query");
    let e = enrich_request(&args(vec![("query", s("p(X)"))]), Ok(vec![spec()])).unwrap_err();
    assert_eq!(e, "Missing required parameter: enrichments");
    let e = enrich_request(
        &args(vec![("query", s("p(X)")), ("enrichments", JsonValue::Array(vec![]))]),
        Ok(vec![]),
    )
    .unwrap_err();
    assert_eq!(e, "enrichments array cannot be empty");
    let e = enrich_request(
        &args(vec![("query", s("p(X)")), ("enrichments", s("x"))]),
        Err("invalid type: string".to_string()),
    )
    .unwrap_err();
    assert_eq!(e, "Invalid enrichments: invalid type: string");
}

#[test]
fn enrich_request_options() {
    let q = enrich_request(
        &args(vec![
            ("query", s(" follows(X, Y) ")),
            ("enrichments", JsonValue::Array(vec![])),
            ("max_parallel", JsonValue::Number(JsonNumber::Unsigned(50))),
            ("on_failure", s("halt")),
        ]),
        Ok(vec![spec()]),
    )
    .unwrap();
    assert_eq!(q.query, "follows(X, Y)");
    assert_eq!(q.max_parallel, 20);
    assert_eq!(q.on_failure, FailureMode::Halt);
    assert_eq!(q.enrichments.len(), 1);
    let q = enrich_request(
        &args(vec![("query", s("p(X)")), ("enrichments", JsonValue::Array(vec![]))]),
        Ok(vec![spec()]),
    )
    .unwrap();
    assert_eq!(q.max_parallel, 5);
    assert_eq!(q.on_failure, FailureMode::Continue);
}

fn tool(secrets: Vec<&str>, tools: Vec<&str>) -> CustomTool {
    CustomTool {
        name: "t".to_string(),
        description: "d".to_string(),
        version: 1,
        code: "return 1;".to_string(),
        input_schema: JsonValue::Null,
        requires_workspace: None,
        requires_network: Some(false),
        required_secrets: secrets.into_iter().map(String::from).collect(),
        required_commands: vec![],
        required_tools: tools.into_iter().map(String::from).collect(),
    }
}

#[test]
fn created_tool_auto_approved_or_pending() {
    let c = created_tool(&tool(vec![], vec![]), "3abc", Some("did:plc:me"), &vec![]);
    assert_eq!((c.version, c.status, c.auto_approved, c.notify_operator), (1, "approved", true, false));
    let (k, a) = c.approval.unwrap();
    assert_eq!(k, "3abc");
    assert_eq!(a.status, ToolApprovalStatus::Approved);
    assert_eq!(a.tool_version, 1);
    assert_eq!(a.approved_by, Some("auto".to_string()));
    assert_eq!(c.message, "Tool created and auto-approved. Ready to run.");
    let c = created_tool(&tool(vec!["API_KEY"], vec![]), "3abd", Some("did:plc:me"), &vec![]);
    assert_eq!((c.status, c.auto_approved, c.notify_operator), ("pending_approval", false, true));
    assert!(c.approval.is_none());
}

fn approval(version: i32, tools: Vec<&str>) -> ToolApproval {
    ToolApproval {
        tool_version: version,
        status: ToolApprovalStatus::Approved,
        approved_by: None,
        reason: None,
        allow_network: None,
        allowed_secrets: vec![],
        allowed_commands: vec![],
        allowed_tools: tools.into_iter().map(String::from).collect(),
    }
}

#[test]
fn sessions_and_run_reports() {
    assert!(session_needed(&Some(approval(2, vec!["x"])), 2));
    assert!(!session_needed(&Some(approval(2, vec![])), 2));
    assert!(!session_needed(&Some(approval(1, vec!["x"])), 2));
    assert!(!session_needed(&None, 2));
    match run_report(true, Ok((JsonValue::Bool(true), 12, String::new()))) {
        RunReport::Done { sandboxed, stderr, duration_ms, .. } => {
            assert!(sandboxed);
            assert_eq!(stderr, None);
            assert_eq!(duration_ms, 12);
        }
        _ => panic!("expected a finished run"),
    }
    match run_report(true, Err("timeout".to_string())) {
        RunReport::Failed(m) => assert!(m.contains("(sandboxed mode)")),
        _ => panic!("expected a failure"),
    }
    match run_report(false, Ok((JsonValue::Null, 1, "warn".to_string()))) {
        RunReport::Done { sandboxed, stderr, .. } => {
            assert!(!sandboxed);
            assert_eq!(stderr, Some("warn".to_string()));
        }
        _ => panic!("expected a finished run"),
    }
}

#[test]
fn inbox_min_priority_above_every_item() {
    let mut inbox: Inbox<String> = Inbox::new();
    inbox.push(InboxItem::notification("1".to_string(), 1, "at://x", None, "hi".to_string()));
    let items = inbox.items();
    assert!(items_at_least(&items, None, Some(256)).is_empty());
    assert_eq!(items_at_least(&items, None, Some(100)).len(), 1);
    assert!(items_at_least(&items, None, Some(101)).is_empty());
    assert_eq!(items_at_least(&items, None, None).len(), 1);
}

#[test]
fn rpc_unknown_method_and_notifications() {
    let r = rpc_response(Some(JsonValue::Number(JsonNumber::Unsigned(1))), "unknown/method", Ok(JsonValue::Null))
        .unwrap();
    assert_eq!(r.id, Some(JsonValue::Number(JsonNumber::Unsigned(1))));
    assert!(r.result.is_none());
    let e = r.error.unwrap();
    assert_eq!(e.code, INTERNAL_ERROR);
    assert_eq!(e.code, -32603);
    assert_eq!(e.message, "Unknown method: unknown/method");
    assert!(rpc_response(None, "notifications/initialized", Ok(JsonValue::Null)).is_none());
    let r = rpc_response(Some(s("a")), "tools/list", Ok(JsonValue::Bool(true))).unwrap();
    assert_eq!(r.result, Some(JsonValue::Bool(true)));
    assert!(r.error.is_none());
    let r = rpc_response(Some(s("a")), "initialize", Err("Missing initialize params".to_string())).unwrap();
    assert_eq!(r.error.unwrap().message, "Missing initialize params");
    let p = parse_error_response("EOF");
    assert_eq!(p.id, None);
    let e = p.error.unwrap();
    assert_eq!((e.code, e.message.as_str()), (PARSE_ERROR, "Parse error: EOF"));
}

fn perms(tools: Vec<&str>) -> DenoPermissions {
    DenoPermissions {
        network: false,
        secrets: vec![("WINTER_SECRET_API_KEY".to_string(), "v".to_string())],
        workspace: None,
        allowed_commands: vec![],
        allowed_tools: tools.into_iter().map(String::from).collect(),
        tool_name_map: vec![("helper".to_string(), "at://did:plc:me/diy.razorgirl.winter.tool/1".to_string())],
        tool_token: None,
        mcp_url: None,
    }
}

#[test]
fn wrapper_script_text() {
    let w = wrapper_script("/tmp/tool.ts", &perms(vec![]));
    assert!(w.starts_with("\nimport tool from \"file:///tmp/tool.ts\";\n"));
    assert!(w.contains("const secretNames: string[] = [\"WINTER_SECRET_API_KEY\"];"));
    assert!(!w.contains("callTool(toolRef"));
    let w = wrapper_script("/tmp/tool.ts", &perms(vec!["query_facts", "at://x/y/z"]));
    assert!(w.contains("const _allowedTools: string[] = [\"query_facts\",\"at://x/y/z\"];"));
    assert!(w.contains(
        "const _toolNameMap: Record<string, string> = {\"helper\":\"at://did:plc:me/diy.razorgirl.winter.tool/1\"};"
    ));
    assert!(w.contains("async function callTool(toolRef"));
}

#[test]
fn at_uri_round_trip_examples() {
    assert_eq!(
        parse_at_uri("at://did:plc:abc/diy.razorgirl.winter.tool/3k/x"),
        Some(("did:plc:abc", "diy.razorgirl.winter.tool", "3k/x"))
    );
    assert_eq!(parse_at_uri("at://did:plc:abc//r"), None);
    assert_eq!(parse_at_uri("at://did/c/"), None);
    assert_eq!(parse_at_uri("https://x/y/z"), None);
}
