use winter_mcp::json::{capped_limit, required_params, JsonNumber, JsonValue};
use winter_mcp::media::reply_request;

fn s(x: &str) -> JsonValue {
    JsonValue::String(x.to_string())
}

fn args(members: Vec<(&str, JsonValue)>) -> Vec<(String, JsonValue)> {
    members.into_iter().map(|(k, v)| (k.to_string(), v)).collect()
}

#[test]
fn required_params_in_order() {
    let a = args(vec![("uri", s("at://x")), ("cid", s("bafy"))]);
    assert_eq!(
        required_params(&a, &vec!["uri", "cid"]).unwrap(),
        vec!["at://x".to_string(), "bafy".to_string()]
    );
    assert_eq!(
        required_params(&args(vec![("cid", s("c"))]), &vec!["uri", "cid"]).unwrap_err(),
        "Missing required parameter: uri"
    );
    assert_eq!(
        required_params(&args(vec![("uri", JsonValue::Bool(true))]), &vec!["uri"]).unwrap_err(),
        "Missing required parameter: uri"
    );
    assert!(required_params(&args(vec![]), &vec![]).unwrap().is_empty());
}

#[test]
fn capped_limits() {
    assert_eq!(capped_limit(&args(vec![])), None);
    assert_eq!(capped_limit(&args(vec![("limit", JsonValue::Number(JsonNumber::Unsigned(25)))])), Some(25));
    assert_eq!(capped_limit(&args(vec![("limit", JsonValue::Number(JsonNumber::Unsigned(1000)))])), Some(100));
    assert_eq!(capped_limit(&args(vec![("limit", JsonValue::Number(JsonNumber::Signed(-1)))])), None);
    assert_eq!(capped_limit(&args(vec![("limit", s("5"))])), None);
}

#[test]
fn reply_request_takes_both_posts() {
    let a = args(vec![
        ("text", s("hello")),
        ("parent_uri", s("at://p")),
        ("parent_cid", s("pc")),
        ("root_uri", s("at://r")),
        ("root_cid", s("rc")),
    ]);
    let (text, parent, root) = reply_request(&a).unwrap();
    assert_eq!(text, "hello");
    assert_eq!((parent.uri.as_str(), parent.cid.as_str()), ("at://p", "pc"));
    assert_eq!((root.uri.as_str(), root.cid.as_str()), ("at://r", "rc"));
    let e = reply_request(&args(vec![("text", s("hi")), ("parent_uri", s("at://p"))])).unwrap_err();
    assert_eq!(e, "Missing required parameter: parent_cid");
    let e = reply_request(&args(vec![])).unwrap_err();
    assert_eq!(e, "Missing required parameter: text");
}
