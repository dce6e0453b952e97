use winter_mcp::protocol::{
    parse_error_message, route_request, server_info, tools_capability, unknown_method_message,
    CallToolResult, RequestRoute, ToolContent, INTERNAL_ERROR, PARSE_ERROR, PROTOCOL_VERSION,
};

#[test]
fn call_tool_result_success_and_error() {
    let ok = CallToolResult::success("done".to_string());
    assert_eq!(ok.is_error, Some(false));
    assert!(matches!(&ok.content[..], [ToolContent::Text { text }] if text == "done"));
    let err = CallToolResult::error("bad".to_string());
    assert_eq!(err.is_error, Some(true));
    assert!(matches!(&err.content[..], [ToolContent::Text { text }] if text == "bad"));
    assert!(matches!(ToolContent::text("x".to_string()), ToolContent::Text { text } if text == "x"));
}

#[test]
fn request_routing() {
    assert_eq!(route_request(false, "initialize"), RequestRoute::Notification);
    assert_eq!(route_request(true, "initialize"), RequestRoute::Initialize);
    assert_eq!(route_request(true, "tools/list"), RequestRoute::ListTools);
    assert_eq!(route_request(true, "tools/call"), RequestRoute::CallTool);
    assert_eq!(route_request(true, "unknown/method"), RequestRoute::UnknownMethod);
    assert_eq!(unknown_method_message("unknown/method"), "Unknown method: unknown/method");
    assert_eq!(parse_error_message("eof"), "Parse error: eof");
    assert_eq!((PARSE_ERROR, INTERNAL_ERROR), (-32700, -32603));
    assert_eq!(PROTOCOL_VERSION, "2024-11-05");
    let info = server_info("1.2.3");
    assert_eq!((info.name.as_str(), info.version.as_str()), ("winter", "1.2.3"));
    assert!(!tools_capability().list_changed);
}
