use winter_mcp::registry::{agent_allowed_tools, definitions};
use winter_mcp::tool_defs::{
    all_tool_definitions, bluesky_tool_definitions, enrich_tool_definitions,
    inbox_tool_definitions, pds_tool_definitions,
};
use winter_mcp::json::JsonValue;

#[test]
fn test_definitions_count() {
    let defs = definitions(pds_tool_definitions());
    assert_eq!(defs.len(), 4);
}

#[test]
fn test_definition_names() {
    let defs = definitions(pds_tool_definitions());
    let names: Vec<&str> = defs.iter().map(|d| d.name.as_str()).collect();
    assert!(names.contains(&"pds_list_records"));
    assert!(names.contains(&"pds_get_record"));
    assert!(names.contains(&"pds_put_record"));
    assert!(names.contains(&"pds_delete_record"));
}

#[test]
fn test_definitions_not_empty() {
    let defs = definitions(enrich_tool_definitions());
    assert!(!defs.is_empty());
    assert_eq!(defs[0].name, "query_and_enrich");
}

#[test]
fn test_tools_allowed() {
    let tools = enrich_tool_definitions();
    assert!(!tools.is_empty());
    for tool in &tools {
        assert!(tool.agent_allowed);
    }
}

#[test]
fn test_definitions() {
    let defs = definitions(inbox_tool_definitions());
    assert_eq!(defs.len(), 2);
    assert_eq!(defs[0].name, "check_inbox");
    assert_eq!(defs[1].name, "acknowledge_inbox");
}

#[test]
fn all_tools_have_permission_metadata() {
    let tools = all_tool_definitions();
    assert!(!tools.is_empty(), "Should have at least one tool");
    for tool in &tools {
        assert!(!tool.definition.name.is_empty(), "Tool name should not be empty");
        assert!(!tool.definition.description.is_empty(), "Tool description should not be empty");
    }
}

#[test]
fn agent_allowed_tools_returns_mcp_format() {
    let allowed = agent_allowed_tools(&all_tool_definitions());
    assert!(!allowed.is_empty(), "Should have at least one allowed tool");
    for name in &allowed {
        assert!(name.starts_with("mcp__winter__"), "Tool name '{}' should start with 'mcp__winter__'", name);
    }
}

#[test]
fn definitions_and_all_tools_count_match() {
    let tool_count = all_tool_definitions().len();
    assert!(tool_count > 50, "Expected at least 50 tools, got {}", tool_count);
    assert!(tool_count < 200, "Unexpected number of tools: {}", tool_count);
}

#[test]
fn bluesky_tools_in_order_with_required_params() {
    let tools = bluesky_tool_definitions();
    assert_eq!(tools.len(), 18);
    assert_eq!(tools[0].definition.name, "post_to_bluesky");
    assert_eq!(tools[17].definition.name, "delete_post");
    let required = |i: usize| -> Vec<String> {
        match &tools[i].definition.input_schema {
            JsonValue::Object(m) => match m.iter().find(|(k, _)| k == "required") {
                Some((_, JsonValue::Array(a))) => a
                    .iter()
                    .map(|v| match v {
                        JsonValue::String(s) => s.clone(),
                        _ => String::new(),
                    })
                    .collect(),
                _ => vec![],
            },
            _ => vec![],
        }
    };
    assert_eq!(required(0), vec!["text".to_string()]);
    assert!(required(6).is_empty()); // get_timeline
}

#[test]
fn every_tool_name_is_unique() {
    let names: Vec<String> = all_tool_definitions().into_iter().map(|t| t.definition.name).collect();
    let mut sorted = names.clone();
    sorted.sort();
    sorted.dedup();
    assert_eq!(sorted.len(), names.len());
}

#[test]
fn post_to_bluesky_schema_lists_its_properties() {
    let defs = winter_mcp::tool_defs::bluesky_tool_definitions();
    let post = &defs[0].definition;
    assert_eq!(post.name, "post_to_bluesky");
    assert!(post.description.starts_with("Post"), "{}", post.description);
    let props = match &post.input_schema {
        winter_mcp::json::JsonValue::Object(m) => m
            .iter()
            .find(|(k, _)| k == "properties")
            .map(|(_, v)| v)
            .expect("schema has properties"),
        _ => panic!("schema is an object"),
    };
    let pairs: Vec<(String, String)> = match props {
        winter_mcp::json::JsonValue::Object(m) => m
            .iter()
            .map(|(k, v)| {
                let ty = match v {
                    winter_mcp::json::JsonValue::Object(f) => match &f[0] {
                        (t, winter_mcp::json::JsonValue::String(s)) if t == "type" => s.clone(),
                        _ => String::new(),
                    },
                    _ => String::new(),
                };
                (k.clone(), ty)
            })
            .collect(),
        _ => panic!("properties is an object"),
    };
    assert_eq!(
        pairs,
        vec![
            ("text".to_string(), "string".to_string()),
            ("images".to_string(), "array".to_string()),
            ("facets".to_string(), "array".to_string()),
        ]
    );
}
