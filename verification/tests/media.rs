use winter_mcp::json::{JsonNumber, JsonValue};
use winter_mcp::media::{
    check_in_workspace, image_file_mime, image_request, parse_facets, parse_images, FacetFeature,
    ImageRequest,
};

fn s(x: &str) -> JsonValue {
    JsonValue::String(x.to_string())
}

fn n(x: u64) -> JsonValue {
    JsonValue::Number(JsonNumber::Unsigned(x))
}

fn obj(members: Vec<(&str, JsonValue)>) -> JsonValue {
    JsonValue::Object(members.into_iter().map(|(k, v)| (k.to_string(), v)).collect())
}

fn args(members: Vec<(&str, JsonValue)>) -> Vec<(String, JsonValue)> {
    members.into_iter().map(|(k, v)| (k.to_string(), v)).collect()
}

#[test]
fn parse_images_empty_when_no_key() {
    let a: Vec<(String, JsonValue)> = Vec::new();
    let plan = parse_images(&a, false);
    assert!(plan.requests.is_empty());
    assert!(plan.error.is_none());
}

#[test]
fn parse_images_empty_when_not_array() {
    let a = args(vec![("images", s("not an array"))]);
    let plan = parse_images(&a, false);
    assert!(plan.requests.is_empty());
    assert!(plan.error.is_none());
}

#[test]
fn parse_images_requires_alt() {
    let a = args(vec![("images", JsonValue::Array(vec![obj(vec![("data", s("aGVsbG8="))])]))]);
    let plan = parse_images(&a, false);
    assert!(plan.error.is_some());
    assert!(plan.error.unwrap().contains("missing 'alt'"));
}

#[test]
fn parse_images_base64_with_alt() {
    let a = args(vec![(
        "images",
        JsonValue::Array(vec![obj(vec![
            ("alt", s("a test image")),
            ("data", s("aGVsbG8=")),
            ("mime_type", s("image/png")),
        ])]),
    )]);
    let plan = parse_images(&a, false);
    assert!(plan.error.is_none());
    assert_eq!(plan.requests.len(), 1);
    match &plan.requests[0] {
        ImageRequest::Inline(img) => {
            assert_eq!(img.alt, "a test image");
            assert_eq!(img.mime_type, "image/png");
            assert_eq!(img.data, b"hello".to_vec());
        }
        ImageRequest::File { .. } => panic!("expected inline image"),
    }
}

#[test]
fn parse_images_default_mime_is_jpeg() {
    let img = obj(vec![("alt", s("x")), ("data", s("aGk="))]);
    match image_request(&img, 0, false) {
        Ok(ImageRequest::Inline(i)) => {
            assert_eq!(i.mime_type, "image/jpeg");
            assert_eq!(i.data, b"hi".to_vec());
        }
        _ => panic!("expected inline image"),
    }
}

#[test]
fn parse_images_invalid_base64() {
    let img = obj(vec![("alt", s("x")), ("data", s("!!!"))]);
    let e = image_request(&img, 2, false).err().unwrap();
    assert!(e.starts_with("images[2]: invalid base64: "));
}

#[test]
fn parse_images_path_needs_workspace() {
    let img = obj(vec![("alt", s("x")), ("path", s("pic.png"))]);
    let e = image_request(&img, 0, false).err().unwrap();
    assert_eq!(e, "images[0]: file paths require WINTER_WORKSPACE to be set");
    match image_request(&img, 0, true) {
        Ok(ImageRequest::File { path, mime_type, alt }) => {
            assert_eq!(path, "pic.png");
            assert_eq!(mime_type, None);
            assert_eq!(alt, "x");
        }
        _ => panic!("expected a file request"),
    }
}

#[test]
fn parse_images_needs_path_or_data() {
    let img = obj(vec![("alt", s("x"))]);
    let e = image_request(&img, 1, true).err().unwrap();
    assert_eq!(
        e,
        "images[1]: must provide either 'path' (workspace file) or 'data' (base64)"
    );
}

#[test]
fn parse_images_stops_at_first_bad_image() {
    let a = args(vec![(
        "images",
        JsonValue::Array(vec![
            obj(vec![("alt", s("ok")), ("data", s("aGk="))]),
            obj(vec![("data", s("aGk="))]),
            obj(vec![("alt", s("never")), ("data", s("aGk="))]),
        ]),
    )]);
    let plan = parse_images(&a, false);
    assert_eq!(plan.requests.len(), 1);
    assert_eq!(plan.error.as_deref(), Some("images[1]: missing 'alt' field"));
}

#[test]
fn image_file_mime_given_or_inferred() {
    assert_eq!(image_file_mime(0, "a", Some("image/gif"), "/w/a").unwrap(), "image/gif");
    assert_eq!(image_file_mime(0, "a.png", None, "/w/a.png").unwrap(), "image/png");
    let e = image_file_mime(3, "a.txt", None, "/w/a.txt").unwrap_err();
    assert_eq!(
        e,
        "images[3]: cannot infer MIME type from 'a.txt' \u{2014} set mime_type explicitly"
    );
}

#[test]
fn workspace_check_on_resolved_paths() {
    assert!(check_in_workspace("p.png", "/work/space/p.png", "/work/space").is_ok());
    assert_eq!(
        check_in_workspace("../x", "/work/x", "/work/space").unwrap_err(),
        "path '../x' is outside the workspace"
    );
    assert!(check_in_workspace("x", "/work/spaceship/x", "/work/space").is_err());
}

#[test]
fn parse_facets_keeps_complete_facets() {
    let a = args(vec![(
        "facets",
        JsonValue::Array(vec![
            obj(vec![
                ("byte_start", n(0)),
                ("byte_end", n(5)),
                ("mention_did", s("did:plc:abc")),
                ("tag", s("rust")),
            ]),
            obj(vec![("byte_start", n(6)), ("byte_end", n(9))]),
            obj(vec![("byte_start", n(1)), ("link_uri", s("https://x"))]),
            obj(vec![("byte_start", n(10)), ("byte_end", n(20)), ("link_uri", s("https://y"))]),
        ]),
    )]);
    let facets = parse_facets(&a).unwrap();
    assert_eq!(facets.len(), 2);
    assert_eq!(facets[0].index.byte_start, 0);
    assert_eq!(facets[0].index.byte_end, 5);
    assert_eq!(facets[0].features.len(), 2);
    assert!(matches!(&facets[0].features[0], FacetFeature::Mention { did } if did == "did:plc:abc"));
    assert!(matches!(&facets[0].features[1], FacetFeature::Tag { tag } if tag == "rust"));
    assert!(matches!(&facets[1].features[0], FacetFeature::Link { uri } if uri == "https://y"));
}

#[test]
fn parse_facets_none_without_usable_facets() {
    let empty: Vec<(String, JsonValue)> = Vec::new();
    assert!(parse_facets(&empty).is_none());
    let a = args(vec![("facets", JsonValue::Array(vec![obj(vec![("tag", s("x"))])]))]);
    assert!(parse_facets(&a).is_none());
    let b = args(vec![("facets", s("nope"))]);
    assert!(parse_facets(&b).is_none());
}
