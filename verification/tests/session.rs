use winter_mcp::protocol::{CallToolResult, ToolContent};
use winter_mcp::json::JsonValue;
use winter_mcp::session::{
    active_context, apply_inbox_nudge, interruption_status, is_nudge_exempt, record_tool_call,
    thought_trigger,
    InterruptionStatus, SessionCounters,
};

fn texts(r: &CallToolResult) -> Vec<String> {
    r.content
        .iter()
        .map(|c| match c {
            ToolContent::Text { text } => text.clone(),
        })
        .collect()
}

#[test]
fn nudge_appended_to_last_text() {
    let mut r = CallToolResult::success("{\"ok\":true}".to_string());
    r.content.push(ToolContent::Text { text: "second".to_string() });
    apply_inbox_nudge("create_fact", &mut r, 3);
    assert_eq!(texts(&r), vec!["{\"ok\":true}".to_string(), "second\n\n_inbox_pending: 3".to_string()]);
    assert_eq!(r.is_error, Some(false));
}

#[test]
fn nudge_keeps_error_flag() {
    let mut r = CallToolResult::error("boom".to_string());
    apply_inbox_nudge("post_to_bluesky", &mut r, 12);
    assert_eq!(texts(&r), vec!["boom\n\n_inbox_pending: 12".to_string()]);
    assert_eq!(r.is_error, Some(true));
}

#[test]
fn no_nudge_when_inbox_empty() {
    let mut r = CallToolResult::success("x".to_string());
    apply_inbox_nudge("create_fact", &mut r, 0);
    assert_eq!(texts(&r), vec!["x".to_string()]);
}

#[test]
fn no_nudge_for_session_tools() {
    for name in ["check_inbox", "acknowledge_inbox", "check_interruption", "session_stats"] {
        assert!(is_nudge_exempt(name));
        let mut r = CallToolResult::success("x".to_string());
        apply_inbox_nudge(name, &mut r, 5);
        assert_eq!(texts(&r), vec!["x".to_string()]);
    }
    assert!(!is_nudge_exempt("record_thought"));
}

#[test]
fn no_nudge_without_content() {
    let mut r = CallToolResult { content: Vec::new(), is_error: None };
    apply_inbox_nudge("create_fact", &mut r, 5);
    assert!(r.content.is_empty());
    assert_eq!(r.is_error, None);
}

#[test]
fn interruption_with_state() {
    let s = interruption_status(4, false, Some((true, Some("operator".to_string()))));
    assert_eq!(
        s,
        InterruptionStatus {
            interrupted: true,
            reason: Some("operator".to_string()),
            urgent: true,
            inbox_pending: 4,
        }
    );
    let s = interruption_status(0, false, Some((false, None)));
    assert!(!s.urgent);
    assert!(!s.interrupted);
}

#[test]
fn interruption_without_state() {
    let s = interruption_status(2, true, None);
    assert_eq!(
        s,
        InterruptionStatus { interrupted: false, reason: None, urgent: true, inbox_pending: 2 }
    );
}

#[test]
fn active_context_set_and_cleared() {
    let (stored, status) = active_context(Some("thread at://x"));
    assert_eq!(stored, Some("thread at://x".to_string()));
    assert_eq!(status, "context set to thread at://x");
    let (stored, status) = active_context(Some(""));
    assert_eq!(stored, None);
    assert_eq!(status, "context set to (cleared)");
    let (stored, status) = active_context(None);
    assert_eq!(stored, None);
    assert_eq!(status, "context set to (cleared)");
}

#[test]
fn counters_count_calls_errors_and_acknowledgements() {
    let mut c = SessionCounters { tool_call_count: 0, tool_error_count: 0, inbox_items_acknowledged: 0 };
    record_tool_call(&mut c, "create_fact", Some(false), &vec![]);
    record_tool_call(&mut c, "create_fact", Some(true), &vec![]);
    record_tool_call(&mut c, "get_timeline", None, &vec![]);
    let ids = vec![(
        "ids".to_string(),
        JsonValue::Array(vec![JsonValue::String("a".to_string()), JsonValue::String("b".to_string())]),
    )];
    record_tool_call(&mut c, "acknowledge_inbox", Some(false), &ids);
    // The same arguments under another tool acknowledge nothing.
    record_tool_call(&mut c, "check_inbox", Some(false), &ids);
    assert_eq!(c, SessionCounters { tool_call_count: 5, tool_error_count: 1, inbox_items_acknowledged: 2 });
}

#[test]
fn thought_triggers() {
    assert_eq!(thought_trigger(None, Some("ctx")), "internal:tool_call");
    assert_eq!(thought_trigger(Some("notification:at://x"), Some("ctx")), "notification:at://x");
    assert_eq!(thought_trigger(Some("persistent"), Some("inbox:42")), "inbox:42");
    assert_eq!(thought_trigger(Some("persistent"), None), "persistent");
}
