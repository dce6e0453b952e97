use winter_mcp::declarations::{
    declaration_batch, declaration_draft, declaration_is_listed, declaration_update, parse_args,
    DeclArg, DeclarationDraft,
};
use winter_mcp::json::{JsonNumber, JsonValue};
use winter_mcp::protocol::{CallToolResult, ToolContent};

fn s(x: &str) -> JsonValue {
    JsonValue::String(x.to_string())
}

fn obj(members: Vec<(&str, JsonValue)>) -> JsonValue {
    JsonValue::Object(members.into_iter().map(|(k, v)| (k.to_string(), v)).collect())
}

fn args(members: Vec<(&str, JsonValue)>) -> Vec<(String, JsonValue)> {
    members.into_iter().map(|(k, v)| (k.to_string(), v)).collect()
}

fn text(e: &CallToolResult) -> &str {
    match &e.content[0] {
        ToolContent::Text { text } => text.as_str(),
    }
}

fn stored() -> DeclarationDraft {
    DeclarationDraft {
        predicate: "interested_in".to_string(),
        args: vec![DeclArg {
            name: "who".to_string(),
            arg_type: "symbol".to_string(),
            description: None,
        }],
        description: "what someone likes".to_string(),
        tags: vec!["social".to_string()],
    }
}

#[test]
fn test_parse_args_valid() {
    let arr = vec![
        obj(vec![("name", s("arg1")), ("type", s("symbol")), ("description", s("First arg"))]),
        obj(vec![("name", s("arg2"))]),
    ];
    let result = parse_args(&arr);
    assert!(result.is_ok());
    let args = result.unwrap();
    assert_eq!(args.len(), 2);
    assert_eq!(args[0].name, "arg1");
    assert_eq!(args[0].arg_type, "symbol");
    assert_eq!(args[0].description, Some("First arg".to_string()));
    assert_eq!(args[1].name, "arg2");
    assert_eq!(args[1].arg_type, "symbol"); // default
    assert_eq!(args[1].description, None);
}

#[test]
fn test_parse_args_missing_name() {
    let arr = vec![obj(vec![("type", s("symbol"))])];
    let result = parse_args(&arr);
    assert!(result.is_err());
}

#[test]
fn test_parse_args_not_object() {
    let arr = vec![s("not an object")];
    let result = parse_args(&arr);
    assert!(result.is_err());
}

#[test]
fn parse_args_messages_name_the_position() {
    let arr = vec![obj(vec![("name", s("a"))]), obj(vec![("type", s("number"))])];
    let e = parse_args(&arr).unwrap_err();
    assert_eq!(text(&e), "args[1]: missing name");
    assert_eq!(e.is_error, Some(true));
    let e = parse_args(&[s("x")]).unwrap_err();
    assert_eq!(text(&e), "args[0]: expected object");
    let v = parse_args(&[obj(vec![("name", s("n")), ("type", s("number"))])]).unwrap();
    assert_eq!(v[0].arg_type, "number");
}

#[test]
fn declaration_draft_accepts() {
    let a = args(vec![
        ("predicate", s("tool_calls")),
        ("args", JsonValue::Array(vec![obj(vec![("name", s("n")), ("type", s("number"))])])),
        ("description", s(&"d".repeat(1100))),
        ("tags", JsonValue::Array(vec![s(&"t".repeat(70)), JsonValue::Bool(true), s("x")])),
    ]);
    let d = declaration_draft(&a).unwrap();
    assert_eq!(d.predicate, "tool_calls");
    assert_eq!(d.args.len(), 1);
    assert_eq!(d.args[0].name, "n");
    assert_eq!(d.description.chars().count(), 1024);
    assert_eq!(d.tags, vec!["t".repeat(64), "x".to_string()]);
}

#[test]
fn declaration_draft_keeps_twenty_tags() {
    let tags: Vec<JsonValue> = (0..25).map(|i| s(&format!("t{}", i))).collect();
    let a = args(vec![
        ("predicate", s("p")),
        ("args", JsonValue::Array(vec![])),
        ("description", s("d")),
        ("tags", JsonValue::Array(tags)),
    ]);
    let d = declaration_draft(&a).unwrap();
    assert_eq!(d.tags.len(), 20);
    assert_eq!(d.tags[19], "t19");
}

#[test]
fn declaration_draft_refusals() {
    let e = declaration_draft(&args(vec![])).unwrap_err();
    assert_eq!(text(&e), "Missing required parameter: predicate");
    let e = declaration_draft(&args(vec![("predicate", s(&"p".repeat(65)))])).unwrap_err();
    assert_eq!(text(&e), "Predicate name too long: 65 chars (max 64)");
    let e = declaration_draft(&args(vec![("predicate", s("p"))])).unwrap_err();
    assert_eq!(text(&e), "Missing required parameter: args");
    let many: Vec<JsonValue> = (0..11).map(|i| obj(vec![("name", s(&format!("a{}", i)))])).collect();
    let e = declaration_draft(&args(vec![("predicate", s("p")), ("args", JsonValue::Array(many))]))
        .unwrap_err();
    assert_eq!(text(&e), "Too many arguments: 11 (max 10)");
    let e = declaration_draft(&args(vec![
        ("predicate", s("p")),
        ("args", JsonValue::Array(vec![s("x")])),
        ("description", s("d")),
    ]))
    .unwrap_err();
    assert_eq!(text(&e), "args[0]: expected object");
    let e = declaration_draft(&args(vec![("predicate", s("p")), ("args", JsonValue::Array(vec![]))]))
        .unwrap_err();
    assert_eq!(text(&e), "Missing required parameter: description");
}

#[test]
fn declaration_batch_accepts_and_refuses() {
    let good = obj(vec![
        ("predicate", s("p")),
        ("args", JsonValue::Array(vec![obj(vec![("name", s("x"))])])),
        ("description", s("d")),
    ]);
    let v = declaration_batch(&args(vec![("declarations", JsonValue::Array(vec![good]))])).unwrap();
    assert_eq!(v.len(), 1);
    assert_eq!(v[0].args[0].arg_type, "symbol");

    let e = declaration_batch(&args(vec![])).unwrap_err();
    assert_eq!(text(&e), "Missing required parameter: declarations");
    let e = declaration_batch(&args(vec![("declarations", JsonValue::Array(vec![]))])).unwrap_err();
    assert_eq!(text(&e), "declarations array cannot be empty");

    let bad_arg = obj(vec![
        ("predicate", s("q")),
        ("args", JsonValue::Array(vec![obj(vec![("name", s("x"))]), obj(vec![])])),
        ("description", s("d")),
    ]);
    let first = obj(vec![
        ("predicate", s("p")),
        ("args", JsonValue::Array(vec![])),
        ("description", s("d")),
    ]);
    let e = declaration_batch(&args(vec![("declarations", JsonValue::Array(vec![first, bad_arg]))]))
        .unwrap_err();
    assert_eq!(text(&e), "declarations[1].args[1]: missing name");

    let e = declaration_batch(&args(vec![(
        "declarations",
        JsonValue::Array(vec![JsonValue::Number(JsonNumber::Unsigned(3))]),
    )]))
    .unwrap_err();
    assert_eq!(text(&e), "declarations[0]: expected object");
    let e = declaration_batch(&args(vec![(
        "declarations",
        JsonValue::Array(vec![obj(vec![("predicate", s("p")), ("args", JsonValue::Array(vec![]))])]),
    )]))
    .unwrap_err();
    assert_eq!(text(&e), "declarations[0]: missing description");
    let e = declaration_batch(&args(vec![(
        "declarations",
        JsonValue::Array(vec![obj(vec![("predicate", s(&"é".repeat(40)))])]),
    )]))
    .unwrap_err();
    assert_eq!(text(&e), "declarations[0]: predicate name too long: 80 chars (max 64)");
}

#[test]
fn declaration_update_changes_fields() {
    let (d, changes) = declaration_update(
        stored(),
        &args(vec![("description", s("new")), ("tags", JsonValue::Array(vec![s("a")]))]),
    )
    .unwrap();
    assert_eq!(changes, vec!["description", "tags"]);
    assert_eq!(d.predicate, "interested_in");
    assert_eq!(d.description, "new");
    assert_eq!(d.tags, vec!["a".to_string()]);
    assert_eq!(d.args.len(), 1);

    let (d, changes) = declaration_update(
        stored(),
        &args(vec![("args", JsonValue::Array(vec![obj(vec![("name", s("x"))]), obj(vec![("name", s("y"))])]))]),
    )
    .unwrap();
    assert_eq!(changes, vec!["args"]);
    assert_eq!(d.args[1].name, "y");
    assert_eq!(d.tags, vec!["social".to_string()]);
}

#[test]
fn declaration_update_refusals() {
    let e = declaration_update(stored(), &args(vec![])).unwrap_err();
    assert_eq!(text(&e), "No changes specified");
    let many: Vec<JsonValue> = (0..12).map(|i| obj(vec![("name", s(&format!("a{}", i)))])).collect();
    let e = declaration_update(stored(), &args(vec![("args", JsonValue::Array(many))])).unwrap_err();
    assert_eq!(text(&e), "Too many arguments: 12 (max 10)");
    let e = declaration_update(stored(), &args(vec![("args", JsonValue::Array(vec![s("z")]))])).unwrap_err();
    assert_eq!(text(&e), "args[0]: expected object");
}

#[test]
fn declaration_listing_filters() {
    let d = stored();
    assert!(declaration_is_listed(&d, None, None));
    assert!(declaration_is_listed(&d, Some("social"), None));
    assert!(!declaration_is_listed(&d, Some("soc"), None));
    assert!(declaration_is_listed(&d, None, Some("INTERESTED")));
    assert!(!declaration_is_listed(&d, Some("social"), Some("follows")));
}
