use winter_mcp::json::JsonValue;
use winter_mcp::approval::{is_approved, is_auto_approvable};
use winter_mcp::permissions::{CustomTool, ToolApproval, ToolApprovalStatus};

const DID: &str = "did:plc:winter";

fn tool(tools: &[&str]) -> CustomTool {
    CustomTool {
        name: "t".to_string(),
        description: "d".to_string(),
        version: 1,
        code: "return 1 + 1;".to_string(),
        input_schema: JsonValue::Null,
        requires_workspace: None,
        requires_network: None,
        required_secrets: vec![],
        required_commands: vec![],
        required_tools: tools.iter().map(|s| s.to_string()).collect(),
    }
}

fn uri(did: &str, rkey: &str) -> String {
    format!("at://{}/diy.razorgirl.winter.tool/{}", did, rkey)
}

fn approval(status: ToolApprovalStatus, version: i32) -> ToolApproval {
    ToolApproval {
        tool_version: version,
        status,
        approved_by: None,
        reason: None,
        allow_network: None,
        allowed_secrets: vec![],
        allowed_commands: vec![],
        allowed_tools: vec![],
    }
}

#[test]
fn approved_only_for_current_version() {
    assert!(is_approved(&Some(approval(ToolApprovalStatus::Approved, 3)), 3));
    assert!(!is_approved(&Some(approval(ToolApprovalStatus::Approved, 2)), 3));
    assert!(!is_approved(&Some(approval(ToolApprovalStatus::Pending, 3)), 3));
    assert!(!is_approved(&Some(approval(ToolApprovalStatus::Denied, 3)), 3));
    assert!(!is_approved(&None, 1));
}

#[test]
fn pure_tool_is_auto_approvable() {
    let t = tool(&["query_facts", "get_note"]);
    assert!(is_auto_approvable(&t, Some(DID), &vec![]));
}

#[test]
fn privileges_prevent_auto_approval() {
    let mut t = tool(&[]);
    t.code = "const r = await fetch(url);".to_string();
    assert!(!is_auto_approvable(&t, Some(DID), &vec![]));
    let mut s = tool(&[]);
    s.required_secrets = vec!["API_KEY".to_string()];
    assert!(!is_auto_approvable(&s, Some(DID), &vec![]));
    let mut c = tool(&[]);
    c.required_commands = vec!["git".to_string()];
    assert!(!is_auto_approvable(&c, Some(DID), &vec![]));
}

#[test]
fn unsafe_builtin_prevents_auto_approval() {
    let t = tool(&["post_to_bluesky"]);
    assert!(!is_auto_approvable(&t, Some(DID), &vec![]));
}

#[test]
fn local_chain_of_safe_tools_is_auto_approvable() {
    let leaf = tool(&["query_facts"]);
    let table = vec![("leaf".to_string(), leaf)];
    let root_uri = uri(DID, "leaf");
    let root = tool(&[root_uri.as_str()]);
    assert!(is_auto_approvable(&root, Some(DID), &table));
}

#[test]
fn chain_checks_reached_tools() {
    let mut leaf = tool(&[]);
    leaf.required_secrets = vec!["TOKEN".to_string()];
    let table = vec![("leaf".to_string(), leaf)];
    let root_uri = uri(DID, "leaf");
    let root = tool(&[root_uri.as_str()]);
    assert!(!is_auto_approvable(&root, Some(DID), &table));
}

#[test]
fn remote_or_missing_tools_are_not_auto_approvable() {
    let table = vec![("leaf".to_string(), tool(&[]))];
    let remote = uri("did:plc:someone", "leaf");
    assert!(!is_auto_approvable(&tool(&[remote.as_str()]), Some(DID), &table));
    let missing = uri(DID, "gone");
    assert!(!is_auto_approvable(&tool(&[missing.as_str()]), Some(DID), &table));
    let local = uri(DID, "leaf");
    assert!(!is_auto_approvable(&tool(&[local.as_str()]), None, &table));
}

#[test]
fn cycle_is_not_auto_approvable() {
    let self_uri = uri(DID, "loop");
    let looping = tool(&[self_uri.as_str()]);
    let table = vec![("loop".to_string(), tool(&[self_uri.as_str()]))];
    assert!(!is_auto_approvable(&looping, Some(DID), &table));
}

#[test]
fn tool_reached_twice_is_not_auto_approvable() {
    let leaf_uri = uri(DID, "leaf");
    let table = vec![
        ("leaf".to_string(), tool(&[])),
        ("mid".to_string(), tool(&[leaf_uri.as_str()])),
    ];
    let mid_uri = uri(DID, "mid");
    let root = tool(&[leaf_uri.as_str(), mid_uri.as_str()]);
    assert!(!is_auto_approvable(&root, Some(DID), &table));
}
