use winter_mcp::json::{JsonNumber, JsonValue};
use winter_mcp::pds::{
    accept_operator_approval, did_document_url, operator_approval_url, pds_endpoint, remote_tool_url,
    pds_list_request, pds_put_request, pds_record_target,
};

fn s(x: &str) -> JsonValue {
    JsonValue::String(x.to_string())
}

fn obj(members: Vec<(&str, JsonValue)>) -> JsonValue {
    JsonValue::Object(members.into_iter().map(|(k, v)| (k.to_string(), v)).collect())
}

fn args(members: Vec<(&str, JsonValue)>) -> Vec<(String, JsonValue)> {
    members.into_iter().map(|(k, v)| (k.to_string(), v)).collect()
}

fn n(x: u64) -> JsonValue {
    JsonValue::Number(JsonNumber::Unsigned(x))
}

#[test]
fn list_request_clamps_limit() {
    let q = pds_list_request(&args(vec![("collection", s("app.bsky.feed.post"))])).unwrap();
    assert_eq!(q.collection, "app.bsky.feed.post");
    assert_eq!(q.limit, 50);
    assert_eq!(q.cursor, None);
    let q = pds_list_request(&args(vec![("collection", s("c")), ("limit", n(0))])).unwrap();
    assert_eq!(q.limit, 1);
    let q = pds_list_request(&args(vec![("collection", s("c")), ("limit", n(500)), ("cursor", s("abc"))]))
        .unwrap();
    assert_eq!(q.limit, 100);
    assert_eq!(q.cursor, Some("abc".to_string()));
    let q = pds_list_request(&args(vec![("collection", s("c")), ("limit", n(7))])).unwrap();
    assert_eq!(q.limit, 7);
    let e = pds_list_request(&args(vec![])).unwrap_err();
    assert_eq!(e, "Missing required parameter: collection");
}

#[test]
fn record_target_needs_both() {
    assert_eq!(
        pds_record_target(&args(vec![("collection", s("c")), ("rkey", s("k"))])).unwrap(),
        ("c".to_string(), "k".to_string())
    );
    assert_eq!(
        pds_record_target(&args(vec![("rkey", s("k"))])).unwrap_err(),
        "Missing required parameter: collection"
    );
    assert_eq!(
        pds_record_target(&args(vec![("collection", s("c"))])).unwrap_err(),
        "Missing required parameter: rkey"
    );
}

#[test]
fn put_request_needs_object() {
    let (c, k, v) = pds_put_request(args(vec![
        ("collection", s("c")),
        ("rkey", s("k")),
        ("record", obj(vec![("text", s("hi"))])),
    ]))
    .unwrap();
    assert_eq!(c, "c");
    assert_eq!(k, "k");
    assert_eq!(v, obj(vec![("text", s("hi"))]));
    let e = pds_put_request(args(vec![("collection", s("c")), ("rkey", s("k")), ("record", s("x"))]))
        .unwrap_err();
    assert_eq!(e, "Parameter 'record' must be an object");
    let e = pds_put_request(args(vec![("collection", s("c")), ("rkey", s("k"))])).unwrap_err();
    assert_eq!(e, "Missing required parameter: record");
    let e = pds_put_request(args(vec![("collection", s("c"))])).unwrap_err();
    assert_eq!(e, "Missing required parameter: rkey");
}

#[test]
fn did_document_urls() {
    assert_eq!(
        did_document_url("did:plc:abc123"),
        Some("https://plc.directory/did:plc:abc123".to_string())
    );
    assert_eq!(
        did_document_url("did:web:example.com"),
        Some("https://example.com/.well-known/did.json".to_string())
    );
    assert_eq!(did_document_url("did:key:z6Mk"), None);
}

#[test]
fn endpoint_of_did_document() {
    let doc = obj(vec![(
        "service",
        JsonValue::Array(vec![
            obj(vec![("type", s("Other")), ("serviceEndpoint", s("https://x"))]),
            obj(vec![
                ("id", s("#atproto_pds")),
                ("type", s("AtprotoPersonalDataServer")),
                ("serviceEndpoint", s("https://pds.example.com//")),
            ]),
        ]),
    )]);
    assert_eq!(pds_endpoint(&doc), Some("https://pds.example.com".to_string()));
    // A service without a type ends the search.
    let doc = obj(vec![(
        "service",
        JsonValue::Array(vec![
            obj(vec![("id", s("x"))]),
            obj(vec![("type", s("AtprotoPersonalDataServer")), ("serviceEndpoint", s("https://p"))]),
        ]),
    )]);
    assert_eq!(pds_endpoint(&doc), None);
    assert_eq!(pds_endpoint(&obj(vec![])), None);
    assert_eq!(pds_endpoint(&obj(vec![("service", JsonValue::Array(vec![]))])), None);
}

#[test]
fn approval_url_and_binding() {
    assert_eq!(
        operator_approval_url("https://pds.example.com", "did:plc:op", "3abc"),
        "https://pds.example.com/xrpc/com.atproto.repo.getRecord?repo=did:plc:op&collection=diy.razorgirl.winter.toolApproval&rkey=3abc"
    );
    assert!(accept_operator_approval(None, Some("did:plc:me")));
    assert!(accept_operator_approval(Some("did:plc:me"), None));
    assert!(accept_operator_approval(Some("did:plc:me"), Some("did:plc:me")));
    assert!(!accept_operator_approval(Some("did:plc:other"), Some("did:plc:me")));
}

#[test]
fn remote_tool_record_url() {
    assert_eq!(
        remote_tool_url("https://pds.other.example", "did:plc:other", "3tool"),
        "https://pds.other.example/xrpc/com.atproto.repo.getRecord?repo=did:plc:other&collection=diy.razorgirl.winter.tool&rkey=3tool"
    );
}
