use winter_mcp::summary::{
    get_tool_category, is_potentially_slow_tool, make_web_link, truncate_chars,
    truncate_for_summary, truncate_string, BlueskyReadType, ToolResultCategory,
};

#[test]
fn truncate_chars_short_string_unchanged() {
    let s = "hello";
    assert_eq!(truncate_chars(s, 10), "hello");
}

#[test]
fn truncate_chars_exact_length_unchanged() {
    let s = "hello";
    assert_eq!(truncate_chars(s, 5), "hello");
}

#[test]
fn truncate_chars_long_string_truncated() {
    let s = "hello world";
    assert_eq!(truncate_chars(s, 5), "hello...");
}

#[test]
fn truncate_chars_empty_string() {
    assert_eq!(truncate_chars("", 10), "");
}

#[test]
fn truncate_chars_zero_max() {
    assert_eq!(truncate_chars("hello", 0), "...");
}

#[test]
fn truncate_chars_utf8_multibyte_safe() {
    // Japanese characters (3 bytes each in UTF-8)
    let s = "こんにちは世界";
    let result = truncate_chars(s, 3);
    assert_eq!(result, "こんに...");
    assert!(result.is_ascii() || result.chars().count() > 0);
}

#[test]
fn truncate_chars_emoji_safe() {
    let s = "👋🌍🎉✨";
    let result = truncate_chars(s, 2);
    assert_eq!(result, "👋🌍...");
}

#[test]
fn truncate_chars_mixed_content() {
    let s = "Hello 世界 🌍";
    let result = truncate_chars(s, 8);
    assert_eq!(result, "Hello 世界...");
}

#[test]
fn truncate_chars_preserves_prefix() {
    let s = "abcdefghij";
    for max in 1..=10 {
        let result = truncate_chars(s, max);
        let prefix: String = s.chars().take(max).collect();
        assert!(
            result.starts_with(&prefix),
            "truncate({}, {}) = {} should start with {}",
            s,
            max,
            result,
            prefix
        );
    }
}

#[test]
fn get_tool_category_covers_all_tools() {
    assert!(matches!(
        get_tool_category("create_fact"),
        ToolResultCategory::SingleMutation { .. }
    ));
    assert!(matches!(
        get_tool_category("create_facts"),
        ToolResultCategory::BatchMutation { .. }
    ));
    assert!(matches!(
        get_tool_category("list_notes"),
        ToolResultCategory::List { .. }
    ));
    assert!(matches!(get_tool_category("query_facts"), ToolResultCategory::Query));
    assert!(matches!(get_tool_category("get_note"), ToolResultCategory::Get { .. }));
    assert!(matches!(
        get_tool_category("get_timeline"),
        ToolResultCategory::BlueskyRead(_)
    ));
    assert!(matches!(get_tool_category("record_thought"), ToolResultCategory::Excluded));
}

#[test]
fn truncate_for_summary_basic() {
    assert_eq!(truncate_for_summary("hello", 10), "hello");
    assert_eq!(truncate_for_summary("hello world", 5), "hello...");
    assert_eq!(truncate_for_summary("", 5), "");
}

// --- further cases ---

#[test]
fn truncate_string_has_no_suffix() {
    assert_eq!(truncate_string("hello world", 5), "hello");
    assert_eq!(truncate_string("héllo", 2), "hé");
    assert_eq!(truncate_string("abc", 3), "abc");
}

#[test]
fn tool_categories_in_detail() {
    match get_tool_category("update_fact") {
        ToolResultCategory::SingleMutation { key_fields, web_path } => {
            assert_eq!(key_fields, vec!["rkey", "predicate", "supersedes_rkey"]);
            assert_eq!(web_path, Some("facts"));
        }
        _ => panic!("expected a single mutation"),
    }
    match get_tool_category("list_predicates") {
        ToolResultCategory::List { count_field, items_field, sample_key } => {
            assert_eq!((count_field, items_field, sample_key), ("total", "predicates", "name"));
        }
        _ => panic!("expected a list"),
    }
    assert!(matches!(
        get_tool_category("unblock_user"),
        ToolResultCategory::SingleMutation { web_path: None, .. }
    ));
    assert!(matches!(
        get_tool_category("search_users"),
        ToolResultCategory::BlueskyRead(BlueskyReadType::Search)
    ));
    assert!(matches!(get_tool_category("some_unknown_tool"), ToolResultCategory::Custom));
    assert!(matches!(get_tool_category("run_custom_tool"), ToolResultCategory::Custom));
}

#[test]
fn web_links_and_slow_tools() {
    assert_eq!(
        make_web_link(Some("https://w.example//"), "facts", "3abc"),
        Some("https://w.example/facts/3abc".to_string())
    );
    assert_eq!(make_web_link(None, "facts", "3abc"), None);
    assert!(is_potentially_slow_tool("query_facts"));
    assert!(is_potentially_slow_tool("get_notifications"));
    assert!(!is_potentially_slow_tool("create_fact"));
}
