use winter_mcp::json::JsonValue;
use winter_mcp::permissions::CustomTool;
use winter_mcp::tool_names::{allowed_tool_uris, local_name_pairs, remote_targets, tool_name_map};

const COL: &str = "diy.razorgirl.winter.tool";

fn uri(did: &str, rkey: &str) -> String {
    format!("at://{}/{}/{}", did, COL, rkey)
}

fn named(name: &str) -> CustomTool {
    CustomTool {
        name: name.to_string(),
        description: String::new(),
        version: 1,
        code: String::new(),
        input_schema: JsonValue::Null,
        requires_workspace: None,
        requires_network: None,
        required_secrets: vec![],
        required_commands: vec![],
        required_tools: vec![],
    }
}

fn pair(n: &str, u: &str) -> (String, String) {
    (n.to_string(), u.to_string())
}

#[test]
fn allowed_uris_skip_builtin_names() {
    let allowed = vec![
        "query_facts".to_string(),
        uri("did:plc:me", "abc"),
        "at://broken".to_string(),
        uri("did:plc:you", "xyz"),
    ];
    let t = allowed_tool_uris(&allowed);
    assert_eq!(t.len(), 2);
    assert_eq!(t[0], (uri("did:plc:me", "abc"), "did:plc:me".to_string(), "abc".to_string()));
    assert_eq!(t[1].1, "did:plc:you");
}

#[test]
fn remote_targets_are_the_other_dids() {
    let t = allowed_tool_uris(&vec![uri("did:plc:me", "a"), uri("did:plc:you", "b")]);
    let r = remote_targets(&t, Some("did:plc:me"));
    assert_eq!(r.len(), 1);
    assert_eq!(r[0].2, "b");
    assert_eq!(remote_targets(&t, None).len(), 2);
}

#[test]
fn local_tools_match_by_record_key() {
    let t = allowed_tool_uris(&vec![uri("did:plc:me", "a"), uri("did:plc:you", "a"), uri("did:plc:me", "z")]);
    let local = vec![("a".to_string(), named("adder")), ("b".to_string(), named("other"))];
    let pairs = local_name_pairs(&local, &t);
    assert_eq!(
        pairs,
        vec![pair("adder", &uri("did:plc:me", "a")), pair("adder", &uri("did:plc:you", "a"))]
    );
}

#[test]
fn ambiguous_names_are_left_out() {
    let pairs = vec![
        pair("adder", "at://did:plc:me/c/a"),
        pair("echo", "at://did:plc:me/c/e"),
        pair("adder", "at://did:plc:you/c/a"),
        pair("echo", "at://did:plc:me/c/e"),
        pair("fetch", "at://did:plc:you/c/f"),
    ];
    let map = tool_name_map(&pairs);
    assert_eq!(
        map,
        vec![pair("echo", "at://did:plc:me/c/e"), pair("fetch", "at://did:plc:you/c/f")]
    );
}

#[test]
fn empty_name_map() {
    assert!(tool_name_map(&vec![]).is_empty());
}
