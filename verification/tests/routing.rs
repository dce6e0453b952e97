use winter_mcp::protocol::ToolContent;
use winter_mcp::routing::{needs_write, route_tool, unknown_tool_result, ToolRoute};
use winter_mcp::tool_defs::all_tool_definitions;

#[test]
fn known_names_route_to_their_handler() {
    assert_eq!(route_tool("post_to_bluesky"), ToolRoute::PostToBluesky);
    assert_eq!(route_tool("run_custom_tool"), ToolRoute::RunCustomTool);
    assert_eq!(route_tool("create_wiki_entry"), ToolRoute::CreateWikiEntry);
    assert_eq!(route_tool("session_stats"), ToolRoute::SessionStats);
    assert_eq!(route_tool("get_notifications"), ToolRoute::GetNotifications);
}

#[test]
fn unknown_names_route_to_unknown() {
    assert_eq!(route_tool("no_such_tool"), ToolRoute::Unknown);
    assert_eq!(route_tool(""), ToolRoute::Unknown);
    assert_eq!(route_tool("Post_To_Bluesky"), ToolRoute::Unknown);
}

#[test]
fn every_listed_tool_has_a_handler() {
    for t in all_tool_definitions() {
        assert_ne!(route_tool(&t.definition.name), ToolRoute::Unknown, "{}", t.definition.name);
    }
}

#[test]
fn only_notifications_need_write() {
    assert!(needs_write(route_tool("get_notifications")));
    assert!(!needs_write(route_tool("get_timeline")));
    assert!(!needs_write(ToolRoute::Unknown));
}

#[test]
fn unknown_tool_answer() {
    let r = unknown_tool_result("frobnicate");
    assert_eq!(r.is_error, Some(true));
    assert_eq!(r.content.len(), 1);
    match &r.content[0] {
        ToolContent::Text { text } => assert_eq!(text, "Unknown tool: frobnicate"),
    }
}
