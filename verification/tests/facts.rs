use winter_mcp::facts::{
    check_fact_update, derived_update_check, expiry_request, fact_batch, fact_draft,
};
use winter_mcp::json::{JsonNumber, JsonValue};
use winter_mcp::protocol::{CallToolResult, ToolContent};

fn s(x: &str) -> JsonValue {
    JsonValue::String(x.to_string())
}

fn obj(members: Vec<(&str, JsonValue)>) -> JsonValue {
    JsonValue::Object(members.into_iter().map(|(k, v)| (k.to_string(), v)).collect())
}

fn args(members: Vec<(&str, JsonValue)>) -> Vec<(String, JsonValue)> {
    members.into_iter().map(|(k, v)| (k.to_string(), v)).collect()
}

fn text(e: &CallToolResult) -> &str {
    match &e.content[0] {
        ToolContent::Text { text } => text.as_str(),
    }
}

fn derived() -> Vec<String> {
    vec!["follows".to_string(), "posted".to_string()]
}

#[test]
fn fact_draft_takes_strings() {
    let a = args(vec![
        ("predicate", s("interested_in")),
        ("args", JsonValue::Array(vec![s("did:plc:me"), s("rust")])),
        ("tags", JsonValue::Array(vec![s("topic"), JsonValue::Bool(true)])),
    ]);
    let f = fact_draft(&a, &derived()).unwrap();
    assert_eq!(f.predicate, "interested_in");
    assert_eq!(f.args, vec!["did:plc:me".to_string(), "rust".to_string()]);
    assert_eq!(f.tags, vec!["topic".to_string()]);
}

#[test]
fn fact_draft_refusals() {
    let e = fact_draft(&args(vec![]), &derived()).unwrap_err();
    assert_eq!(text(&e), "Missing required parameter: predicate");
    assert_eq!(e.is_error, Some(true));
    let e = fact_draft(
        &args(vec![("predicate", s("follows")), ("args", JsonValue::Array(vec![]))]),
        &derived(),
    )
    .unwrap_err();
    assert_eq!(
        text(&e),
        "Cannot create derived fact. 'follows' is automatically generated from PDS records."
    );
    let e = fact_draft(&args(vec![("predicate", s("p"))]), &derived()).unwrap_err();
    assert_eq!(text(&e), "Missing required parameter: args");
    let e = fact_draft(
        &args(vec![
            ("predicate", s("p")),
            ("args", JsonValue::Array(vec![s("a"), JsonValue::Null])),
        ]),
        &derived(),
    )
    .unwrap_err();
    assert_eq!(text(&e), "Invalid args[1]: expected string, got null");
}

#[test]
fn fact_batch_checks_each_item() {
    let a = args(vec![(
        "facts",
        JsonValue::Array(vec![
            obj(vec![("predicate", s("p")), ("args", JsonValue::Array(vec![s("x")]))]),
            obj(vec![
                ("predicate", s("q")),
                ("args", JsonValue::Array(vec![JsonValue::Number(JsonNumber::Unsigned(1))])),
            ]),
        ]),
    )]);
    let e = fact_batch(&a, &derived()).unwrap_err();
    assert_eq!(text(&e), "Invalid facts[1].args[0]: expected string, got number");
    let b = args(vec![(
        "facts",
        JsonValue::Array(vec![obj(vec![("predicate", s("posted")), ("args", JsonValue::Array(vec![]))])]),
    )]);
    let e = fact_batch(&b, &derived()).unwrap_err();
    assert_eq!(
        text(&e),
        "facts[0]: cannot create derived fact. 'posted' is automatically generated from PDS records."
    );
    let c = args(vec![("facts", JsonValue::Array(vec![obj(vec![("predicate", s("p"))])]))]);
    assert_eq!(text(&fact_batch(&c, &derived()).unwrap_err()), "facts[0]: missing args");
}

#[test]
fn fact_batch_accepts_valid_items() {
    let a = args(vec![(
        "facts",
        JsonValue::Array(vec![
            obj(vec![("predicate", s("p")), ("args", JsonValue::Array(vec![s("x")]))]),
            obj(vec![("predicate", s("q")), ("args", JsonValue::Array(vec![]))]),
        ]),
    )]);
    let v = fact_batch(&a, &derived()).unwrap();
    assert_eq!(v.len(), 2);
    assert_eq!(v[1].predicate, "q");
    let empty = args(vec![("facts", JsonValue::Array(vec![]))]);
    assert_eq!(text(&fact_batch(&empty, &derived()).unwrap_err()), "facts array cannot be empty");
}

#[test]
fn fact_update_arguments() {
    let a = args(vec![
        ("rkey", s("3old")),
        ("predicate", s("p")),
        ("args", JsonValue::Array(vec![s("x")])),
    ]);
    let (k, f) = check_fact_update(&a).unwrap();
    assert_eq!(k, "3old");
    assert_eq!(f.predicate, "p");
    let e = check_fact_update(&args(vec![("predicate", s("p"))])).unwrap_err();
    assert_eq!(text(&e), "Missing required parameter: rkey");
    assert!(derived_update_check("p", &derived()).is_ok());
    assert_eq!(
        derived_update_check("follows", &derived()).unwrap_err(),
        "Cannot update derived fact. 'follows' is automatically generated from PDS records."
    );
}

#[test]
fn expiry_arguments() {
    let r = expiry_request(&args(vec![
        ("expires_at", s("")),
        ("ttl_seconds", JsonValue::Number(JsonNumber::Unsigned(60))),
    ]));
    assert_eq!(r.at, None);
    assert_eq!(r.ttl_seconds, Some(60));
    let r = expiry_request(&args(vec![
        ("expires_at", s("2030-01-01T00:00:00Z")),
        ("ttl_seconds", JsonValue::Number(JsonNumber::Signed(-5))),
    ]));
    assert_eq!(r.at.as_deref(), Some("2030-01-01T00:00:00Z"));
    assert_eq!(r.ttl_seconds, None);
}
