use winter_mcp::json::JsonValue;
use winter_mcp::registry::{agent_allowed_tools, definitions, ToolDefinition, ToolMeta};

fn def(name: &str) -> ToolDefinition {
    ToolDefinition {
        name: name.to_string(),
        description: format!("{} tool", name),
        input_schema: JsonValue::Object(vec![("type".to_string(), JsonValue::String("object".to_string()))]),
    }
}

fn tools() -> Vec<ToolMeta> {
    vec![
        ToolMeta::allowed(def("create_fact")),
        ToolMeta::operator_only(def("pds_delete_record")),
        ToolMeta::allowed(def("check_inbox")),
    ]
}

#[test]
fn agent_allowed_tools_use_mcp_format() {
    assert_eq!(
        agent_allowed_tools(&tools()),
        vec!["mcp__winter__create_fact".to_string(), "mcp__winter__check_inbox".to_string()]
    );
    assert!(agent_allowed_tools(&vec![]).is_empty());
}

#[test]
fn definitions_keep_order() {
    let d = definitions(tools());
    let names: Vec<&str> = d.iter().map(|t| t.name.as_str()).collect();
    assert_eq!(names, vec!["create_fact", "pds_delete_record", "check_inbox"]);
    assert_eq!(d[1].description, "pds_delete_record tool");
}

#[test]
fn tool_meta_constructors() {
    assert!(ToolMeta::allowed(def("a")).agent_allowed);
    assert!(!ToolMeta::operator_only(def("a")).agent_allowed);
}
