use winter_mcp::digest::{
    summarize_batch_mutation, summarize_bluesky_read, summarize_custom, summarize_get,
    summarize_list, summarize_query, summarize_result, summarize_single_mutation,
    tool_call_content,
};
use winter_mcp::json::{
    extract_string, format_arguments_summary, format_value_summary, json_string,
    parse_string_array, JsonNumber, JsonValue,
};
use winter_mcp::protocol::{CallToolResult, ToolContent};
use winter_mcp::summary::BlueskyReadType;

fn s(x: &str) -> JsonValue {
    JsonValue::String(x.to_string())
}

fn n(x: u64) -> JsonValue {
    JsonValue::Number(JsonNumber::Unsigned(x))
}

fn obj(members: Vec<(&str, JsonValue)>) -> JsonValue {
    JsonValue::Object(members.into_iter().map(|(k, v)| (k.to_string(), v)).collect())
}

fn arr(items: Vec<JsonValue>) -> JsonValue {
    JsonValue::Array(items)
}

fn args(members: Vec<(&str, JsonValue)>) -> Vec<(String, JsonValue)> {
    members.into_iter().map(|(k, v)| (k.to_string(), v)).collect()
}

// ---------------------------------------------------------------------------
// Argument summaries
// ---------------------------------------------------------------------------

#[test]
fn format_arguments_summary_empty() {
    let a: Vec<(String, JsonValue)> = Vec::new();
    assert_eq!(format_arguments_summary(&a), "");
}

#[test]
fn format_arguments_summary_single_string() {
    let a = args(vec![("text", s("hello"))]);
    assert_eq!(format_arguments_summary(&a), "text=\"hello\"");
}

#[test]
fn format_arguments_summary_long_string_truncated() {
    let long_text = "a".repeat(100);
    let a = args(vec![("text", s(&long_text))]);
    let result = format_arguments_summary(&a);
    assert!(result.contains("..."));
    assert!(result.len() < 100);
}

#[test]
fn format_arguments_summary_number() {
    let a = args(vec![("count", n(42))]);
    assert_eq!(format_arguments_summary(&a), "count=42");
}

#[test]
fn format_arguments_summary_boolean() {
    let a = args(vec![("enabled", JsonValue::Bool(true))]);
    assert_eq!(format_arguments_summary(&a), "enabled=true");
}

#[test]
fn format_arguments_summary_null() {
    let a = args(vec![("value", JsonValue::Null)]);
    assert_eq!(format_arguments_summary(&a), "value=null");
}

#[test]
fn format_arguments_summary_array() {
    let a = args(vec![("items", arr(vec![s("a"), s("b"), s("c")]))]);
    assert_eq!(format_arguments_summary(&a), r#"items=["a", "b", "c"]"#);
}

#[test]
fn format_arguments_summary_empty_array() {
    let a = args(vec![("items", arr(vec![]))]);
    assert_eq!(format_arguments_summary(&a), "items=[]");
}

#[test]
fn format_arguments_summary_large_array() {
    let a = args(vec![(
        "items",
        arr(vec![s("a"), s("b"), s("c"), s("d"), s("e"), s("f")]),
    )]);
    assert_eq!(
        format_arguments_summary(&a),
        r#"items=["a", "b", "c", ... (6 total)]"#
    );
}

#[test]
fn format_arguments_summary_object() {
    let a = args(vec![("config", obj(vec![("a", n(1))]))]);
    assert_eq!(format_arguments_summary(&a), "config={a: 1}");
}

#[test]
fn format_arguments_summary_large_object() {
    let a = args(vec![(
        "config",
        obj(vec![("a", n(1)), ("b", n(2)), ("c", n(3)), ("d", n(4))]),
    )]);
    assert_eq!(format_arguments_summary(&a), "config={4 keys}");
}

#[test]
fn format_arguments_summary_empty_object() {
    let a = args(vec![("config", obj(vec![]))]);
    assert_eq!(format_arguments_summary(&a), "config={}");
}

#[test]
fn format_arguments_summary_multiple_args() {
    let a = args(vec![("a", s("x")), ("b", n(1))]);
    let result = format_arguments_summary(&a);
    assert!(result.contains("a=\"x\""));
    assert!(result.contains("b=1"));
    assert!(result.contains(", "));
}

#[test]
fn format_value_summary_nested_and_negative() {
    let v = arr(vec![
        JsonValue::Number(JsonNumber::Signed(-7)),
        JsonValue::Number(JsonNumber::Float("2.5".to_string())),
        obj(vec![("k", arr(vec![JsonValue::Bool(false)]))]),
    ]);
    assert_eq!(format_value_summary(&v), "[-7, 2.5, {k: [false]}]");
}

#[test]
fn format_value_summary_exactly_five_items_shown() {
    let v = arr(vec![n(1), n(2), n(3), n(4), n(5)]);
    assert_eq!(format_value_summary(&v), "[1, 2, 3, 4, 5]");
}

#[test]
fn json_string_is_compact_and_escapes_strings() {
    let v = obj(vec![
        ("a", s("x\"y")),
        ("b", arr(vec![n(1), JsonValue::Null, JsonValue::Number(JsonNumber::Signed(i64::MIN))])),
    ]);
    assert_eq!(
        json_string(&v),
        "{\"a\":\"x\\\"y\",\"b\":[1,null,-9223372036854775808]}"
    );
}

// ---------------------------------------------------------------------------
// Field extraction
// ---------------------------------------------------------------------------

#[test]
fn extract_string_various_types() {
    let result = obj(vec![
        ("string_field", s("hello")),
        ("bool_field", JsonValue::Bool(true)),
        ("number_field", n(42)),
        ("null_field", JsonValue::Null),
    ]);
    assert_eq!(
        extract_string(&result, "string_field", None),
        Some("hello".to_string())
    );
    assert_eq!(
        extract_string(&result, "bool_field", None),
        Some("true".to_string())
    );
    assert_eq!(
        extract_string(&result, "number_field", None),
        Some("42".to_string())
    );
    assert_eq!(extract_string(&result, "null_field", None), None);
    assert_eq!(extract_string(&result, "missing", None), None);
}

#[test]
fn extract_string_truncates_and_ignores_non_objects() {
    let result = obj(vec![("t", s("abcdefgh"))]);
    assert_eq!(
        extract_string(&result, "t", Some(3)),
        Some("abc...".to_string())
    );
    assert_eq!(extract_string(&s("t"), "t", None), None);
}

// ---------------------------------------------------------------------------
// Digests by category
// ---------------------------------------------------------------------------

#[test]
fn summarize_single_mutation_basic() {
    let result = obj(vec![("rkey", s("3abc123")), ("predicate", s("interested_in"))]);
    let summary = summarize_single_mutation(&result, &["rkey", "predicate"], None, None);
    assert_eq!(summary, "rkey=3abc123, predicate=interested_in");
}

#[test]
fn summarize_single_mutation_missing_field() {
    let result = obj(vec![("rkey", s("3abc123"))]);
    let summary = summarize_single_mutation(&result, &["rkey", "predicate"], None, None);
    assert_eq!(summary, "rkey=3abc123");
}

#[test]
fn summarize_single_mutation_with_boolean() {
    let result = obj(vec![("deleted", JsonValue::Bool(true)), ("rkey", s("3abc123"))]);
    let summary = summarize_single_mutation(&result, &["deleted", "rkey"], None, None);
    assert_eq!(summary, "deleted=true, rkey=3abc123");
}

#[test]
fn summarize_single_mutation_with_web_link() {
    let result = obj(vec![("rkey", s("3abc"))]);
    let summary = summarize_single_mutation(
        &result,
        &["rkey"],
        Some("facts"),
        Some("https://winter.example/"),
    );
    assert_eq!(summary, "rkey=3abc\nView: https://winter.example/facts/3abc");
}

#[test]
fn summarize_batch_mutation_basic() {
    let result = obj(vec![
        ("created", n(3)),
        (
            "results",
            arr(vec![
                obj(vec![("predicate", s("foo"))]),
                obj(vec![("predicate", s("bar"))]),
                obj(vec![("predicate", s("baz"))]),
            ]),
        ),
    ]);
    let summary = summarize_batch_mutation(&result, "created", "results", "predicate");
    assert_eq!(summary, "created=3, predicate=[foo, bar, baz]");
}

#[test]
fn summarize_batch_mutation_many_items() {
    let items = ["a", "b", "c", "d", "e"]
        .iter()
        .map(|p| obj(vec![("predicate", s(p))]))
        .collect();
    let result = obj(vec![("created", n(5)), ("results", arr(items))]);
    let summary = summarize_batch_mutation(&result, "created", "results", "predicate");
    assert_eq!(summary, "created=5, predicate=[a, b, c]");
}

#[test]
fn summarize_batch_mutation_without_samples() {
    let result = obj(vec![("created", s("many"))]);
    let summary = summarize_batch_mutation(&result, "created", "results", "predicate");
    assert_eq!(summary, "created=0");
}

#[test]
fn summarize_list_basic() {
    let result = obj(vec![
        ("count", n(15)),
        (
            "notes",
            arr(vec![
                obj(vec![("title", s("Note 1"))]),
                obj(vec![("title", s("Note 2"))]),
                obj(vec![("title", s("Note 3"))]),
            ]),
        ),
    ]);
    let summary = summarize_list(&result, "count", "notes", "title");
    assert_eq!(
        summary,
        "count=15, sample=[\"Note 1\", \"Note 2\", \"Note 3\"]"
    );
}

#[test]
fn summarize_list_empty() {
    let result = obj(vec![("count", n(0)), ("notes", arr(vec![]))]);
    let summary = summarize_list(&result, "count", "notes", "title");
    assert_eq!(summary, "count=0");
}

#[test]
fn summarize_list_truncates_long_titles() {
    let long_title = "a".repeat(50);
    let result = obj(vec![
        ("count", n(1)),
        ("notes", arr(vec![obj(vec![("title", s(&long_title))])])),
    ]);
    let summary = summarize_list(&result, "count", "notes", "title");
    assert!(summary.contains("..."));
    assert!(summary.len() < 100);
}

#[test]
fn summarize_query_basic() {
    let result = obj(vec![
        ("query", s("follows(X, Y, _)")),
        (
            "results",
            arr(vec![
                arr(vec![s("did:plc:abc"), s("did:plc:def")]),
                arr(vec![s("did:plc:abc"), s("did:plc:ghi")]),
                arr(vec![s("did:plc:abc"), s("did:plc:jkl")]),
            ]),
        ),
    ]);
    let summary = summarize_query(&result);
    assert!(summary.contains("query=\"follows(X, Y, _)\""));
    assert!(summary.contains("count=3"));
    assert!(summary.contains("sample=["));
}

#[test]
fn summarize_query_exact_sample() {
    let result = obj(vec![
        ("query", s("q(X)")),
        (
            "results",
            arr(vec![
                arr(vec![s("abcdefghijklmnopqrstuvwxyz"), n(3)]),
                arr(vec![JsonValue::Null]),
                arr(vec![s("never shown")]),
            ]),
        ),
    ]);
    assert_eq!(
        summarize_query(&result),
        "query=\"q(X)\", count=3, sample=[(abcdefghijklmnopqrst..., 3), (null)]"
    );
}

#[test]
fn summarize_query_empty_results() {
    let result = obj(vec![("query", s("no_matches(X)")), ("results", arr(vec![]))]);
    let summary = summarize_query(&result);
    assert!(summary.contains("count=0"));
}

#[test]
fn summarize_get_basic() {
    let result = obj(vec![
        ("rkey", s("3abc123")),
        ("title", s("My Note")),
        ("content", s("This is the content of the note.")),
    ]);
    let summary = summarize_get(&result, &["rkey", "title"], Some("content"));
    assert!(summary.contains("rkey=3abc123"));
    assert!(summary.contains("title=My Note"));
    assert!(summary.contains("content_length="));
}

#[test]
fn summarize_get_content_length_in_bytes() {
    let result = obj(vec![("content", s("héllo"))]);
    let summary = summarize_get(&result, &[], Some("content"));
    assert_eq!(summary, "content_length=6");
}

#[test]
fn summarize_get_no_size_field() {
    let result = obj(vec![("operator_did", s("did:plc:xyz"))]);
    let summary = summarize_get(&result, &["operator_did"], None);
    assert_eq!(summary, "operator_did=did:plc:xyz");
}

#[test]
fn summarize_bluesky_timeline() {
    let result = obj(vec![(
        "posts",
        arr(vec![
            obj(vec![("author", obj(vec![("handle", s("alice.bsky.social"))]))]),
            obj(vec![("author", obj(vec![("handle", s("bob.bsky.social"))]))]),
        ]),
    )]);
    let summary = summarize_bluesky_read(&result, BlueskyReadType::Timeline);
    assert!(summary.contains("count=2"));
    assert!(summary.contains("first_author=alice.bsky.social"));
}

#[test]
fn summarize_bluesky_notifications() {
    let result = obj(vec![(
        "notifications",
        arr(vec![
            obj(vec![("reason", s("like"))]),
            obj(vec![("reason", s("like"))]),
            obj(vec![("reason", s("reply"))]),
            obj(vec![("reason", s("follow"))]),
        ]),
    )]);
    let summary = summarize_bluesky_read(&result, BlueskyReadType::Notifications);
    assert!(summary.contains("count=4"));
    assert!(summary.contains("reasons="));
    assert!(summary.contains("like: 2"));
    assert!(summary.contains("reply: 1"));
    assert!(summary.contains("follow: 1"));
}

#[test]
fn summarize_bluesky_notifications_in_first_seen_order() {
    let result = obj(vec![(
        "notifications",
        arr(vec![
            obj(vec![("reason", s("reply"))]),
            obj(vec![("other", s("x"))]),
            obj(vec![("reason", s("like"))]),
            obj(vec![("reason", s("reply"))]),
        ]),
    )]);
    let summary = summarize_bluesky_read(&result, BlueskyReadType::Notifications);
    assert_eq!(summary, "count=4, reasons={reply: 2, like: 1}");
}

#[test]
fn summarize_bluesky_search() {
    let result = obj(vec![
        ("query", s("rust programming")),
        ("posts", arr(vec![obj(vec![]), obj(vec![]), obj(vec![])])),
        ("cursor", s("abc123")),
    ]);
    let summary = summarize_bluesky_read(&result, BlueskyReadType::Search);
    assert!(summary.contains("query=\"rust programming\""));
    assert!(summary.contains("count=3"));
    assert!(summary.contains("has_cursor=true"));
}

#[test]
fn summarize_bluesky_search_users() {
    let result = obj(vec![("users", arr(vec![obj(vec![]), obj(vec![])]))]);
    let summary = summarize_bluesky_read(&result, BlueskyReadType::Search);
    assert_eq!(summary, "count=2");
}

#[test]
fn summarize_bluesky_thread() {
    let result = obj(vec![
        ("root", obj(vec![("author", obj(vec![("handle", s("alice.bsky.social"))]))])),
        ("total_replies", n(15)),
        ("my_replies", n(3)),
    ]);
    let summary = summarize_bluesky_read(&result, BlueskyReadType::Thread);
    assert!(summary.contains("root_author=alice.bsky.social"));
    assert!(summary.contains("total_replies=15"));
    assert!(summary.contains("my_replies=3"));
}

#[test]
fn summarize_custom_tool() {
    let result = obj(vec![
        ("duration_ms", n(150)),
        ("sandboxed", JsonValue::Bool(true)),
        ("result", s("Success!")),
    ]);
    let summary = summarize_custom(&result);
    assert!(summary.contains("duration_ms=150"));
    assert!(summary.contains("sandboxed=true"));
    assert!(summary.contains("result=Success!"));
}

#[test]
fn summarize_custom_object_result_as_json() {
    let result = obj(vec![("result", obj(vec![("ok", s("yes"))]))]);
    assert_eq!(summarize_custom(&result), "result={\"ok\":\"yes\"}");
}

#[test]
fn summarize_result_excluded_returns_empty() {
    let result = obj(vec![("kind", s("insight")), ("content", s("test"))]);
    let summary = summarize_result("record_thought", &result, None);
    assert!(summary.is_empty());
}

#[test]
fn summarize_result_unknown_tool_uses_custom() {
    let result = obj(vec![("foo", s("bar"))]);
    let summary = summarize_result("unknown_tool", &result, None);
    assert!(summary.is_empty());
}

// ---------------------------------------------------------------------------
// Arrays of strings
// ---------------------------------------------------------------------------

#[test]
fn test_parse_string_array_valid() {
    let a = vec![s("a"), s("b")];
    let result = parse_string_array(&a, "test");
    assert!(result.is_ok());
    assert_eq!(result.unwrap(), vec!["a", "b"]);
}

#[test]
fn test_parse_string_array_empty() {
    let a: Vec<JsonValue> = vec![];
    let result = parse_string_array(&a, "test");
    assert!(result.is_ok());
    assert_eq!(result.unwrap(), Vec::<String>::new());
}

#[test]
fn test_parse_string_array_with_number() {
    let a = vec![s("a"), n(42)];
    let result = parse_string_array(&a, "args");
    assert!(result.is_err());
}

#[test]
fn test_parse_string_array_with_null() {
    let a = vec![JsonValue::Null];
    let result = parse_string_array(&a, "args");
    assert!(result.is_err());
}

#[test]
fn test_parse_string_array_with_object() {
    let a = vec![obj(vec![])];
    let result = parse_string_array(&a, "args");
    assert!(result.is_err());
}

#[test]
fn parse_string_array_error_message() {
    let a = vec![s("a"), n(42)];
    let e = parse_string_array(&a, "args").unwrap_err();
    assert_eq!(e.is_error, Some(true));
    match &e.content[0] {
        ToolContent::Text { text } => {
            assert_eq!(text, "Invalid args[1]: expected string, got number")
        }
    }
}

// ---------------------------------------------------------------------------
// Records of tool calls
// ---------------------------------------------------------------------------

#[test]
fn format_tool_call_content_with_summary() {
    let text = "{\"predicate\":\"test_pred\",\"rkey\":\"3abc123\"}".to_string();
    let result = CallToolResult::success(text);
    let parsed = obj(vec![("predicate", s("test_pred")), ("rkey", s("3abc123"))]);
    let content = tool_call_content("create_fact", Vec::new(), &result, Some(parsed), false, None);
    assert_eq!(content.tool, "create_fact");
    let kept = content.result.as_ref().unwrap();
    assert_eq!(kept.get("rkey"), Some(&s("3abc123")));
    assert_eq!(kept.get("predicate"), Some(&s("test_pred")));
    assert!(content.summary.as_ref().unwrap().contains("rkey=3abc123"));
    assert!(!content.failed);
}

#[test]
fn format_tool_call_content_error_shows_full_message() {
    let error_text = "Detailed error message that should not be truncated";
    let result = CallToolResult::error(error_text.to_string());
    let content = tool_call_content("create_fact", Vec::new(), &result, None, true, None);
    assert_eq!(content.tool, "create_fact");
    assert_eq!(content.error.as_deref(), Some(error_text));
    assert!(content.failed);
    assert!(content.result.is_none());
}

#[test]
fn format_tool_call_content_excluded_tool_has_result_no_summary() {
    let result = CallToolResult::success("{\"kind\":\"insight\",\"rkey\":\"3abc123\"}".to_string());
    let parsed = obj(vec![("kind", s("insight")), ("rkey", s("3abc123"))]);
    let content =
        tool_call_content("record_thought", Vec::new(), &result, Some(parsed), false, None);
    assert_eq!(content.tool, "record_thought");
    assert!(content.result.is_none());
    assert!(content.summary.is_none());
}

#[test]
fn format_tool_call_content_includes_args() {
    let a = args(vec![("predicate", s("test")), ("args", arr(vec![s("a"), s("b")]))]);
    let result = CallToolResult::success("{\"predicate\":\"test\",\"rkey\":\"abc123\"}".to_string());
    let parsed = obj(vec![("predicate", s("test")), ("rkey", s("abc123"))]);
    let content = tool_call_content("create_fact", a, &result, Some(parsed), false, None);
    let recorded = content.args.as_ref().unwrap();
    assert_eq!(recorded.get("predicate"), Some(&s("test")));
    assert_eq!(recorded.get("args"), Some(&arr(vec![s("a"), s("b")])));
}

#[test]
fn format_tool_call_content_empty_args_omitted() {
    let result = CallToolResult::success("{\"count\":0,\"notes\":[]}".to_string());
    let parsed = obj(vec![("count", n(0)), ("notes", arr(vec![]))]);
    let content = tool_call_content("list_notes", Vec::new(), &result, Some(parsed), false, None);
    assert!(content.args.is_none());
    assert_eq!(content.summary.as_deref(), Some("count=0"));
    assert!(content.result.is_none());
}

#[test]
fn tool_call_content_plain_text_result_kept_as_string() {
    let result = CallToolResult::success("not json".to_string());
    let content = tool_call_content("create_fact", Vec::new(), &result, None, false, None);
    assert_eq!(content.result, Some(s("not json")));
    assert!(content.summary.is_none());
    assert!(content.error.is_none());
}

#[test]
fn tool_call_content_link_for_single_mutation() {
    let result = CallToolResult::success("{\"predicate\":\"p\",\"rkey\":\"r1\"}".to_string());
    let parsed = obj(vec![("predicate", s("p")), ("rkey", s("r1"))]);
    let content = tool_call_content(
        "create_fact",
        Vec::new(),
        &result,
        Some(parsed),
        false,
        Some("https://w.example"),
    );
    assert_eq!(content.link.as_deref(), Some("https://w.example/facts/r1"));
}

#[test]
fn json_string_escapes_control_characters() {
    let v = s("a\nb\t\u{1}\u{1f}\u{8}\u{c}\r\\/é\u{7f}");
    assert_eq!(
        json_string(&v),
        "\"a\\nb\\t\\u0001\\u001f\\b\\f\\r\\\\/é\u{7f}\""
    );
}
