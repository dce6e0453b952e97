use winter_mcp::json::{JsonNumber, JsonValue};
use winter_mcp::notes::{note_draft, note_is_listed, note_list_limit, note_preview};

fn s(x: &str) -> JsonValue {
    JsonValue::String(x.to_string())
}

fn args(members: Vec<(&str, JsonValue)>) -> Vec<(String, JsonValue)> {
    members.into_iter().map(|(k, v)| (k.to_string(), v)).collect()
}

#[test]
fn note_draft_from_arguments() {
    let a = args(vec![
        ("title", s("Reading list")),
        ("content", s("- SICP")),
        ("category", s("books")),
        ("tags", JsonValue::Array(vec![s("reading"), JsonValue::Null])),
    ]);
    let n = note_draft(&a).unwrap();
    assert_eq!(n.title, "Reading list");
    assert_eq!(n.category.as_deref(), Some("books"));
    assert_eq!(n.tags, vec!["reading".to_string()]);
}

#[test]
fn note_draft_refusals() {
    assert_eq!(
        note_draft(&args(vec![("content", s("c"))])).unwrap_err(),
        "Missing required parameter: title"
    );
    assert_eq!(
        note_draft(&args(vec![("title", s("t"))])).unwrap_err(),
        "Missing required parameter: content"
    );
    let big = "x".repeat(51_201);
    assert_eq!(
        note_draft(&args(vec![("title", s("t")), ("content", s(&big))])).unwrap_err(),
        "Content exceeds maximum size of 50KB"
    );
}

#[test]
fn note_listing_filters_and_limit() {
    let tags = vec!["rust".to_string(), "lang".to_string()];
    assert!(note_is_listed("Ownership", "borrowing rules", Some("cs"), &tags, Some("cs"), Some("rust"), Some("BORROW")));
    assert!(!note_is_listed("Ownership", "borrowing rules", None, &tags, Some("cs"), None, None));
    assert!(!note_is_listed("Ownership", "borrowing rules", Some("cs"), &tags, None, Some("go"), None));
    assert!(!note_is_listed("Ownership", "borrowing rules", Some("cs"), &tags, None, None, Some("python")));
    assert_eq!(note_list_limit(&args(vec![])), 20);
    assert_eq!(
        note_list_limit(&args(vec![("limit", JsonValue::Number(JsonNumber::Unsigned(5)))])),
        5
    );
}

#[test]
fn note_preview_cuts_at_one_hundred_bytes() {
    assert_eq!(note_preview("short"), "short");
    let long = "ab".repeat(60);
    assert_eq!(note_preview(&long), format!("{}...", "ab".repeat(50)));
    let accented = format!("{}{}", "é".repeat(50), "tail");
    assert_eq!(note_preview(&accented), format!("{}...", "é".repeat(50)));
}
