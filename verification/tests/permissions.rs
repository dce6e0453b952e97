use winter_mcp::json::JsonValue;
use std::cmp::Ordering;

use winter_mcp::permissions::{
    code_needs_network, is_at_uri, is_safe_mcp_tool, parse_at_uri, CallGraphValidator,
    CustomTool, PermissionVec, PrivilegeViolation, ToolApproval, ToolApprovalStatus, ToolSessionStore,
};
use winter_mcp::strset::StrSet;

fn set(names: &[&str]) -> StrSet {
    StrSet::from_strings(names.iter().map(|s| s.to_string()).collect())
}

fn pvec(network: bool, secrets: &[&str], commands: &[&str], mcp_tools: &[&str]) -> PermissionVec {
    PermissionVec {
        network,
        secrets: set(secrets),
        commands: set(commands),
        mcp_tools: set(mcp_tools),
    }
}

fn validator(
    perms: Vec<(&str, PermissionVec)>,
    edges: Vec<(&str, &[&str])>,
) -> CallGraphValidator {
    CallGraphValidator::new(
        perms.into_iter().map(|(k, v)| (k.to_string(), v)).collect(),
        edges.into_iter().map(|(k, v)| (k.to_string(), set(v))).collect(),
    )
}

#[test]
fn bottom_is_safe() {
    assert!(PermissionVec::bottom().is_safe());
}

#[test]
fn safe_with_safe_mcp_tools() {
    let p = pvec(false, &[], &[], &["query_facts", "list_rules"]);
    assert!(p.is_safe());
}

#[test]
fn unsafe_with_network() {
    let p = pvec(true, &[], &[], &[]);
    assert!(!p.is_safe());
}

#[test]
fn unsafe_with_secrets() {
    let p = pvec(false, &["API_KEY"], &[], &[]);
    assert!(!p.is_safe());
}

#[test]
fn unsafe_with_commands() {
    let p = pvec(false, &[], &["git"], &[]);
    assert!(!p.is_safe());
}

#[test]
fn unsafe_with_unsafe_mcp_tool() {
    let p = pvec(false, &[], &[], &["post_to_bluesky"]);
    assert!(!p.is_safe());
}

#[test]
fn dominance_basic() {
    let a = pvec(true, &["KEY"], &["git"], &["query_facts"]);
    let b = pvec(false, &[], &[], &["query_facts"]);
    assert!(a.dominates(&b));
    assert!(!b.dominates(&a));
}

#[test]
fn dominance_equal() {
    let a = pvec(true, &["KEY"], &[], &[]);
    let b = pvec(true, &["KEY"], &[], &[]);
    assert!(a.dominates(&b));
    assert!(b.dominates(&a));
}

#[test]
fn incomparable_vectors() {
    let a = pvec(true, &[], &[], &[]);
    let b = pvec(false, &["API_KEY"], &[], &[]);
    assert!(!a.dominates(&b));
    assert!(!b.dominates(&a));
    assert_eq!(a.partial_cmp(&b), None);
}

#[test]
fn partial_ord_greater() {
    let a = pvec(true, &["KEY"], &["git"], &[]);
    let b = pvec(false, &[], &[], &[]);
    assert_eq!(a.partial_cmp(&b), Some(Ordering::Greater));
    assert_eq!(b.partial_cmp(&a), Some(Ordering::Less));
}

#[test]
fn join_computes_union() {
    let a = pvec(true, &["A"], &[], &["query_facts"]);
    let b = pvec(false, &["B"], &["git"], &["list_rules"]);
    let joined = a.join(&b);
    assert!(joined.network);
    assert!(joined.secrets.contains("A"));
    assert!(joined.secrets.contains("B"));
    assert!(joined.commands.contains("git"));
    assert!(joined.mcp_tools.contains("query_facts"));
    assert!(joined.mcp_tools.contains("list_rules"));
}

#[test]
fn missing_dimensions_reports_correctly() {
    let caller = pvec(true, &[], &[], &[]);
    let callee = pvec(false, &["API_KEY"], &["git"], &[]);
    let missing = caller.missing_dimensions(&callee);
    assert!(missing.iter().any(|m| m.contains("API_KEY")));
    assert!(missing.iter().any(|m| m.contains("git")));
    assert!(!missing.iter().any(|m| m == "network")); // caller has network
}

#[test]
fn cycle_detection_finds_cycle() {
    let v = validator(
        vec![("A", pvec(true, &[], &[], &[])), ("B", pvec(false, &[], &[], &[]))],
        vec![("A", &["B"]), ("B", &["A"])],
    );
    let result = v.validate_acyclic();
    assert!(result.is_err());
    if let Err(PrivilegeViolation::CycleDetected(path)) = result {
        assert!(path.len() >= 2);
    }
}

#[test]
fn acyclic_dag_passes() {
    let v = validator(
        vec![
            ("A", pvec(true, &[], &[], &[])),
            ("B", pvec(false, &[], &[], &[])),
            ("C", pvec(false, &[], &[], &[])),
        ],
        vec![("A", &["B"]), ("B", &["C"])],
    );
    assert!(v.validate_acyclic().is_ok());
}

#[test]
fn effective_permissions_transitive() {
    let v = validator(
        vec![
            ("A", pvec(true, &[], &[], &["query_facts"])),
            ("B", pvec(false, &["KEY"], &[], &[])),
        ],
        vec![("A", &["B"])],
    );
    let effective = v.effective_permissions("A").unwrap();
    assert!(effective.network);
    assert!(effective.secrets.contains("KEY"));
    assert!(effective.mcp_tools.contains("query_facts"));
}

#[test]
fn validate_call_succeeds_when_dominant() {
    let v = validator(
        vec![("A", pvec(true, &["KEY"], &["git"], &[])), ("B", pvec(false, &[], &[], &[]))],
        vec![],
    );
    assert!(v.validate_call("A", "B").is_ok());
}

#[test]
fn validate_call_fails_when_not_dominant() {
    let v = validator(
        vec![("A", pvec(true, &[], &[], &[])), ("B", pvec(false, &["KEY"], &[], &[]))],
        vec![],
    );
    let result = v.validate_call("A", "B");
    assert!(result.is_err());
}

#[test]
fn validate_call_safe_mcp_always_allowed() {
    let v = validator(vec![("A", pvec(false, &[], &[], &[]))], vec![]);
    assert!(v.validate_call("A", "query_facts").is_ok());
}

#[test]
fn validate_call_unsafe_mcp_requires_permission() {
    let v = validator(vec![("A", pvec(false, &[], &[], &[]))], vec![]);
    assert!(v.validate_call("A", "post_to_bluesky").is_err());
}

#[test]
fn validate_call_unsafe_mcp_with_permission() {
    let v = validator(vec![("A", pvec(false, &[], &[], &["post_to_bluesky"]))], vec![]);
    assert!(v.validate_call("A", "post_to_bluesky").is_ok());
}

#[test]
fn is_at_uri_detects_at_uris() {
    assert!(is_at_uri("at://did:plc:abc/diy.razorgirl.winter.tool/3lbxxx"));
    assert!(!is_at_uri("query_facts"));
    assert!(!is_at_uri("post_to_bluesky"));
    assert!(!is_at_uri(""));
}

#[test]
fn parse_at_uri_works() {
    let (did, collection, rkey) =
        parse_at_uri("at://did:plc:abc/diy.razorgirl.winter.tool/3lbxxx").unwrap();
    assert_eq!(did, "did:plc:abc");
    assert_eq!(collection, "diy.razorgirl.winter.tool");
    assert_eq!(rkey, "3lbxxx");
}

#[test]
fn parse_at_uri_invalid() {
    assert!(parse_at_uri("query_facts").is_none());
    assert!(parse_at_uri("at://").is_none());
    assert!(parse_at_uri("at://did:plc:abc").is_none());
    assert!(parse_at_uri("at://did:plc:abc/collection").is_none());
}

#[test]
fn unsafe_with_at_uri_tool_reference() {
    let p = pvec(false, &[], &[], &["at://did:plc:abc/diy.razorgirl.winter.tool/3lbxxx"]);
    assert!(!p.is_safe());
}

#[test]
fn safe_mcp_plus_at_uri_is_unsafe() {
    let p = pvec(
        false,
        &[],
        &[],
        &["query_facts", "at://did:plc:abc/diy.razorgirl.winter.tool/3lbxxx"],
    );
    assert!(!p.is_safe());
}

#[test]
fn validate_call_at_uri_with_permission() {
    let tool_uri = "at://did:plc:abc/diy.razorgirl.winter.tool/3lbxxx";
    let v = validator(vec![("A", pvec(false, &[], &[], &[tool_uri]))], vec![]);
    assert!(v.validate_call("A", tool_uri).is_ok());
}

#[test]
fn validate_call_at_uri_without_permission() {
    let tool_uri = "at://did:plc:abc/diy.razorgirl.winter.tool/3lbxxx";
    let v = validator(vec![("A", pvec(false, &[], &[], &[]))], vec![]);
    assert!(v.validate_call("A", tool_uri).is_err());
}

#[test]
fn session_store_register_and_get() {
    let mut store = ToolSessionStore::new();
    let allowed = set(&["query_facts"]);
    let perms = PermissionVec::bottom();

    let token = store.register(allowed.clone(), perms, 0);
    assert!(!token.is_empty());

    let session = store.get(&token).unwrap();
    assert_eq!(session.allowed_tools, allowed);
    assert_eq!(session.depth, 0);
}

#[test]
fn session_store_remove() {
    let mut store = ToolSessionStore::new();
    let token = store.register(StrSet::new(), PermissionVec::bottom(), 0);

    assert!(store.get(&token).is_some());
    store.remove(&token);
    assert!(store.get(&token).is_none());
}

#[test]
fn session_store_invalid_token_returns_none() {
    let store = ToolSessionStore::new();
    assert!(store.get("nonexistent-token").is_none());
}

#[test]
fn detects_remote_es_import() {
    assert!(code_needs_network(
        r#"import { serve } from "https://deno.land/std/http/server.ts";"#
    ));
}

#[test]
fn detects_npm_specifier() {
    assert!(code_needs_network(r#"import chalk from "npm:chalk";"#));
}

#[test]
fn detects_jsr_specifier() {
    assert!(code_needs_network(r#"import { parse } from "jsr:@std/csv";"#));
}

#[test]
fn detects_fetch_call() {
    assert!(code_needs_network("const res = await fetch(url);"));
}

#[test]
fn no_network_for_local_code() {
    assert!(!code_needs_network(
        r#"export default async function(input) { return input.x + 1; }"#
    ));
}

#[test]
fn no_network_for_relative_import() {
    assert!(!code_needs_network(r#"import { helper } from "./utils.ts";"#));
}

// --- further cases ---

#[test]
fn detects_dynamic_imports_and_socket_apis() {
    assert!(code_needs_network(r#"const m = await import("https://x.dev/m.js");"#));
    assert!(code_needs_network(r#"const m = await import ('npm:left-pad');"#));
    assert!(code_needs_network("const ws = new WebSocket(url);"));
    assert!(code_needs_network("const c = await Deno.connect({ port: 80 });"));
    assert!(code_needs_network("const es = new EventSource(u);"));
    assert!(!code_needs_network("const s = 'https://example.com';"));
}

#[test]
fn safe_tool_list_membership() {
    assert!(is_safe_mcp_tool("search_users"));
    assert!(is_safe_mcp_tool("pds_get_records"));
    assert!(!is_safe_mcp_tool("post_to_bluesky"));
    assert!(!is_safe_mcp_tool(""));
}

#[test]
fn parse_at_uri_keeps_slashes_in_rkey() {
    assert_eq!(parse_at_uri("at://did/col/a/b"), Some(("did", "col", "a/b")));
    assert!(parse_at_uri("at:///col/rkey").is_none());
    assert!(parse_at_uri("at://did//rkey").is_none());
    assert!(parse_at_uri("at://did/col/").is_none());
}

#[test]
fn missing_dimensions_exact_text() {
    let caller = pvec(false, &["A"], &[], &[]);
    let callee = pvec(true, &["C", "A", "B"], &[], &["post_to_bluesky"]);
    let missing = caller.missing_dimensions(&callee);
    assert_eq!(
        missing,
        vec![
            "network".to_string(),
            "secrets: {B, C}".to_string(),
            "mcp_tools: {post_to_bluesky}".to_string(),
        ]
    );
    assert!(callee.missing_dimensions(&caller).is_empty());
}

#[test]
fn partial_cmp_equal_for_same_vectors() {
    let a = pvec(true, &["K"], &["git"], &["query_facts"]);
    let b = pvec(true, &["K"], &["git"], &["query_facts"]);
    assert_eq!(a.partial_cmp(&b), Some(Ordering::Equal));
    assert_eq!(a, b);
}

#[test]
fn join_laws_on_values() {
    let a = pvec(true, &["A"], &[], &["x"]);
    let b = pvec(false, &["B"], &["git"], &[]);
    let c = pvec(false, &[], &["ls"], &["y"]);
    assert_eq!(a.join(&b), b.join(&a));
    assert_eq!(a.join(&b).join(&c), a.join(&b.join(&c)));
    assert_eq!(a.join(&a), a);
    assert!(a.join(&b).dominates(&a));
    assert!(a.join(&b).dominates(&b));
    assert!(a.dominates(&PermissionVec::bottom()));
}

#[test]
fn violation_messages() {
    let v = validator(
        vec![("A", pvec(false, &[], &[], &[])), ("B", pvec(true, &["KEY"], &[], &[]))],
        vec![],
    );
    assert_eq!(v.validate_call("Z", "B").unwrap_err().message(), "unknown tool: Z");
    assert_eq!(
        v.validate_call("A", "B").unwrap_err().message(),
        "insufficient privilege: A cannot call B (missing: network, secrets: {KEY})"
    );
    assert_eq!(
        v.validate_call("A", "post_to_bluesky").unwrap_err().message(),
        "insufficient privilege: A cannot call post_to_bluesky (missing: mcp_tools: {post_to_bluesky})"
    );
    let cyc = PrivilegeViolation::CycleDetected(vec!["A".to_string(), "B".to_string(), "A".to_string()]);
    assert_eq!(cyc.message(), "cycle detected: A -> B -> A");
}

#[test]
fn self_loop_is_a_cycle() {
    let v = validator(vec![("A", pvec(false, &[], &[], &[]))], vec![("A", &["A"])]);
    match v.validate_acyclic() {
        Err(PrivilegeViolation::CycleDetected(path)) => {
            assert_eq!(path, vec!["A".to_string(), "A".to_string()])
        }
        _ => panic!("expected a cycle"),
    }
}

#[test]
fn edges_to_builtin_tools_are_not_followed() {
    let v = validator(
        vec![("A", pvec(false, &[], &[], &["query_facts"]))],
        vec![("A", &["query_facts"]), ("query_facts", &["A"])],
    );
    // `query_facts` has edges, so it takes part in the graph: a cycle.
    assert!(v.validate_acyclic().is_err());
    let w = validator(
        vec![("A", pvec(false, &[], &[], &["query_facts"]))],
        vec![("A", &["query_facts", "list_rules"])],
    );
    assert!(w.validate_acyclic().is_ok());
}

#[test]
fn effective_permissions_through_cycle_and_unknown() {
    let v = validator(
        vec![
            ("A", pvec(false, &[], &[], &[])),
            ("B", pvec(false, &["S"], &[], &[])),
            ("C", pvec(true, &[], &["git"], &[])),
        ],
        vec![("A", &["B"]), ("B", &["C", "A"])],
    );
    let e = v.effective_permissions("A").unwrap();
    assert_eq!(e, pvec(true, &["S"], &["git"], &[]));
    let c = v.effective_permissions("C").unwrap();
    assert_eq!(c, pvec(true, &[], &["git"], &[]));
    match v.effective_permissions("nope") {
        Err(PrivilegeViolation::UnknownTool(n)) => assert_eq!(n, "nope"),
        _ => panic!("expected unknown tool"),
    }
}

#[test]
fn validate_all_checks_edges_after_cycles() {
    let ok = validator(
        vec![("A", pvec(true, &["K"], &[], &[])), ("B", pvec(false, &["K"], &[], &[]))],
        vec![("A", &["B", "query_facts"])],
    );
    assert!(ok.validate_all().is_ok());
    let bad = validator(
        vec![("A", pvec(false, &[], &[], &[])), ("B", pvec(false, &["K"], &[], &[]))],
        vec![("A", &["B"])],
    );
    assert!(matches!(
        bad.validate_all(),
        Err(PrivilegeViolation::InsufficientPrivilege { .. })
    ));
    let cyclic = validator(
        vec![("A", pvec(false, &[], &[], &[])), ("B", pvec(false, &["K"], &[], &[]))],
        vec![("A", &["B"]), ("B", &["A"])],
    );
    assert!(matches!(cyclic.validate_all(), Err(PrivilegeViolation::CycleDetected(_))));
}

#[test]
fn from_tool_and_approval() {
    let tool = CustomTool {
        name: "fetcher".to_string(),
        description: "fetches".to_string(),
        version: 1,
        code: "await fetch(u)".to_string(),
        input_schema: JsonValue::Null,
        requires_workspace: None,
        requires_network: None,
        required_secrets: vec!["B".to_string(), "A".to_string(), "B".to_string()],
        required_commands: vec![],
        required_tools: vec!["query_facts".to_string()],
    };
    let p = PermissionVec::from_tool(&tool);
    assert_eq!(p, pvec(true, &["A", "B"], &[], &["query_facts"]));
    let declared = CustomTool { requires_network: Some(false), ..tool };
    assert!(!PermissionVec::from_tool(&declared).network);
    let approval = ToolApproval {
        tool_version: 1,
        status: ToolApprovalStatus::Approved,
        approved_by: None,
        reason: None,
        allow_network: None,
        allowed_secrets: vec!["A".to_string()],
        allowed_commands: vec!["git".to_string()],
        allowed_tools: vec![],
    };
    assert_eq!(PermissionVec::from_approval(&approval), pvec(false, &["A"], &["git"], &[]));
}

#[test]
fn session_tokens_are_uuids_and_distinct() {
    let mut store = ToolSessionStore::new();
    let a = store.register(StrSet::new(), PermissionVec::bottom(), 1);
    let b = store.register(StrSet::new(), PermissionVec::bottom(), 2);
    assert_eq!(a.len(), 36);
    assert_ne!(a, b);
    store.remove(&a);
    assert!(store.get(&a).is_none());
    assert_eq!(store.get(&b).unwrap().depth, 2);
}
