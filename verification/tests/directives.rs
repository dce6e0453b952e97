use winter_mcp::directives::{directive_batch, directive_draft, directive_is_listed, directive_update, DirectiveDraft};
use winter_mcp::json::{JsonNumber, JsonValue};
use winter_mcp::records::DirectiveKind;

fn s(x: &str) -> JsonValue {
    JsonValue::String(x.to_string())
}

fn obj(members: Vec<(&str, JsonValue)>) -> JsonValue {
    JsonValue::Object(members.into_iter().map(|(k, v)| (k.to_string(), v)).collect())
}

fn args(members: Vec<(&str, JsonValue)>) -> Vec<(String, JsonValue)> {
    members.into_iter().map(|(k, v)| (k.to_string(), v)).collect()
}

#[test]
fn test_directive_kind_display() {
    assert_eq!(DirectiveKind::Value.name(), "value");
    assert_eq!(DirectiveKind::Interest.name(), "interest");
    assert_eq!(DirectiveKind::Belief.name(), "belief");
    assert_eq!(DirectiveKind::Guideline.name(), "guideline");
    assert_eq!(DirectiveKind::SelfConcept.name(), "self_concept");
    assert_eq!(DirectiveKind::Boundary.name(), "boundary");
    assert_eq!(DirectiveKind::Aspiration.name(), "aspiration");
}

#[test]
fn directive_draft_takes_fields() {
    let a = args(vec![
        ("kind", s("value")),
        ("content", s("intellectual honesty")),
        ("summary", s(&"x".repeat(300))),
        ("source", s("reflection")),
        ("supersedes", s("3old")),
        (
            "tags",
            JsonValue::Array((0..12).map(|i| s(&format!("t{}", i))).collect()),
        ),
        ("priority", JsonValue::Number(JsonNumber::Signed(-3))),
    ]);
    let d = directive_draft(&a).unwrap();
    assert_eq!(d.kind, DirectiveKind::Value);
    assert_eq!(d.content, "intellectual honesty");
    assert_eq!(d.summary.as_ref().unwrap().chars().count(), 256);
    assert_eq!(d.source.as_deref(), Some("reflection"));
    assert_eq!(d.supersedes.as_deref(), Some("3old"));
    assert_eq!(d.tags.len(), 10);
    assert_eq!(d.tags[9], "t9");
    assert_eq!(d.priority, -3);
}

#[test]
fn directive_draft_defaults() {
    let a = args(vec![("kind", s("belief")), ("content", s("c"))]);
    let d = directive_draft(&a).unwrap();
    assert_eq!(d.summary, None);
    assert!(d.tags.is_empty());
    assert_eq!(d.priority, 0);
}

#[test]
fn directive_draft_errors() {
    let e = directive_draft(&args(vec![("content", s("c"))])).unwrap_err();
    assert_eq!(e, "Missing required parameter: kind");
    let e = directive_draft(&args(vec![("kind", s("mood")), ("content", s("c"))])).unwrap_err();
    assert_eq!(
        e,
        "Invalid kind 'mood'. Must be one of: value, interest, belief, guideline, self_concept, boundary, aspiration"
    );
    let e = directive_draft(&args(vec![("kind", s("value"))])).unwrap_err();
    assert_eq!(e, "Missing required parameter: content");
    let long = "é".repeat(1001);
    let e = directive_draft(&args(vec![("kind", s("value")), ("content", s(&long))])).unwrap_err();
    assert_eq!(e, "Content too long: 2002 chars (max 2000)");
}

#[test]
fn directive_batch_checks_items_in_order() {
    let a = args(vec![(
        "directives",
        JsonValue::Array(vec![
            obj(vec![("kind", s("interest")), ("content", s("rust"))]),
            obj(vec![("kind", s("nope")), ("content", s("x"))]),
            s("not an object"),
        ]),
    )]);
    let e = directive_batch(&a).unwrap_err();
    assert!(e.starts_with("directives[1]: invalid kind 'nope'"));
}

#[test]
fn directive_batch_refusals() {
    let e = directive_batch(&args(vec![])).unwrap_err();
    assert_eq!(e, "Missing required parameter: directives");
    let e = directive_batch(&args(vec![("directives", JsonValue::Array(vec![]))])).unwrap_err();
    assert_eq!(e, "directives array cannot be empty");
    let many = (0..101)
        .map(|_| obj(vec![("kind", s("value")), ("content", s("c"))]))
        .collect();
    let e = directive_batch(&args(vec![("directives", JsonValue::Array(many))])).unwrap_err();
    assert_eq!(e, "Batch size 101 exceeds maximum of 100");
    let e = directive_batch(&args(vec![("directives", JsonValue::Array(vec![s("x")]))]))
        .unwrap_err();
    assert_eq!(e, "directives[0]: expected object");
}

#[test]
fn directive_batch_drafts_without_supersedes() {
    let a = args(vec![(
        "directives",
        JsonValue::Array(vec![obj(vec![
            ("kind", s("boundary")),
            ("content", s("no pretending")),
            ("supersedes", s("old")),
        ])]),
    )]);
    let v = directive_batch(&a).unwrap();
    assert_eq!(v.len(), 1);
    assert_eq!(v[0].kind, DirectiveKind::Boundary);
    assert_eq!(v[0].supersedes, None);
}

fn existing() -> DirectiveDraft {
    DirectiveDraft {
        kind: DirectiveKind::Guideline,
        content: "old".to_string(),
        summary: Some("s".to_string()),
        source: None,
        supersedes: Some("prev".to_string()),
        tags: vec!["a".to_string()],
        priority: 5,
    }
}

#[test]
fn directive_update_lists_changes() {
    let a = args(vec![
        ("priority", JsonValue::Number(JsonNumber::Unsigned(7))),
        ("content", s("new")),
        ("confidence", JsonValue::Number(JsonNumber::Float("0.5".to_string()))),
    ]);
    let (d, changes) = directive_update(existing(), &a).unwrap();
    assert_eq!(changes, vec!["content", "confidence", "priority"]);
    assert_eq!(d.content, "new");
    assert_eq!(d.priority, 7);
    assert_eq!(d.summary.as_deref(), Some("s"));
    assert_eq!(d.tags, vec!["a".to_string()]);
    assert_eq!(d.supersedes.as_deref(), Some("prev"));
}

#[test]
fn directive_update_refusals() {
    let e = directive_update(existing(), &args(vec![("other", s("x"))])).unwrap_err();
    assert_eq!(e, "No changes specified");
    let e = directive_update(existing(), &args(vec![("content", s(&"a".repeat(2001)))])).unwrap_err();
    assert_eq!(e, "Content too long: 2001 chars (max 2000)");
}

#[test]
fn directive_listing_filters() {
    let d = existing();
    assert!(directive_is_listed(&d, true, false, None, None, None));
    assert!(!directive_is_listed(&d, false, false, None, None, None));
    assert!(directive_is_listed(&d, false, true, None, None, None));
    assert!(directive_is_listed(&d, true, false, Some(d.kind), None, None));
    let other = if d.kind == DirectiveKind::Value { DirectiveKind::Belief } else { DirectiveKind::Value };
    assert!(!directive_is_listed(&d, true, false, Some(other), None, None));
    let word: String = d.content.chars().take(3).collect::<String>().to_uppercase();
    assert!(directive_is_listed(&d, true, false, None, Some(word.as_str()), None));
    assert!(!directive_is_listed(&d, true, false, None, Some("zzzz-not-there"), None));
    if let Some(t) = d.tags.first() {
        assert!(directive_is_listed(&d, true, false, None, None, Some(t.as_str())));
    }
    assert!(!directive_is_listed(&d, true, false, None, None, Some("no-such-tag")));
}
