use winter_mcp::bluesky::{
    build_thread_context, check_image, check_image_count, classify_api_error, mime_for_extension,
    mime_from_extension, participation_metrics, BlueskyError, NotificationReason, ThreadPost,
};
use winter_mcp::records::{extract_rkey, parse_directive_kind, DirectiveKind};

fn post(uri: &str, author: &str, created: Option<&str>) -> ThreadPost {
    ThreadPost {
        uri: uri.to_string(),
        cid: "cid".to_string(),
        author_did: author.to_string(),
        author_handle: "h".to_string(),
        text: None,
        created_at: created.map(|s| s.to_string()),
        reply_count: None,
        parent_uri: None,
        depth: 0,
    }
}

#[test]
fn mime_from_extension_known_types() {
    assert_eq!(mime_from_extension("photo.jpg"), Some("image/jpeg"));
    assert_eq!(mime_from_extension("photo.jpeg"), Some("image/jpeg"));
    assert_eq!(mime_from_extension("image.png"), Some("image/png"));
    assert_eq!(mime_from_extension("image.webp"), Some("image/webp"));
    assert_eq!(mime_from_extension("anim.gif"), Some("image/gif"));
}

#[test]
fn mime_from_extension_unknown() {
    assert_eq!(mime_from_extension("file.txt"), None);
    assert_eq!(mime_from_extension("file"), None);
    assert_eq!(mime_from_extension("file.bmp"), None);
}

#[test]
fn test_extract_rkey() {
    assert_eq!(
        extract_rkey("at://did:plc:abc/diy.razorgirl.winter.fact/3abc123"),
        "3abc123"
    );
    assert_eq!(extract_rkey("at://did:plc:abc/app.bsky.feed.post/xyz"), "xyz");
    assert_eq!(extract_rkey(""), "");
}

#[test]
fn test_parse_directive_kind() {
    assert_eq!(parse_directive_kind("value"), Some(DirectiveKind::Value));
    assert_eq!(parse_directive_kind("interest"), Some(DirectiveKind::Interest));
    assert_eq!(parse_directive_kind("belief"), Some(DirectiveKind::Belief));
    assert_eq!(parse_directive_kind("guideline"), Some(DirectiveKind::Guideline));
    assert_eq!(parse_directive_kind("self_concept"), Some(DirectiveKind::SelfConcept));
    assert_eq!(parse_directive_kind("boundary"), Some(DirectiveKind::Boundary));
    assert_eq!(parse_directive_kind("aspiration"), Some(DirectiveKind::Aspiration));
    assert_eq!(parse_directive_kind("invalid"), None);
    assert_eq!(parse_directive_kind(""), None);
}

// --- further cases ---

#[test]
fn notification_reasons() {
    assert_eq!(NotificationReason::parse("mention"), Some(NotificationReason::Mention));
    assert_eq!(NotificationReason::parse("quote"), Some(NotificationReason::Quote));
    assert_eq!(NotificationReason::parse("Mention"), None);
    assert!(NotificationReason::Reply.triggers_wakeup());
    assert!(!NotificationReason::Like.triggers_wakeup());
    assert!(!NotificationReason::Follow.triggers_wakeup());
    for r in [
        NotificationReason::Mention,
        NotificationReason::Reply,
        NotificationReason::Follow,
        NotificationReason::Like,
        NotificationReason::Repost,
        NotificationReason::Quote,
    ] {
        assert_eq!(NotificationReason::parse(r.name()), Some(r));
    }
    assert_eq!(DirectiveKind::SelfConcept.name(), "self_concept");
}

#[test]
fn error_messages_and_image_limits() {
    assert_eq!(check_image_count(4).is_ok(), true);
    assert_eq!(
        check_image_count(5).unwrap_err().message(),
        "too many images: 5 exceeds maximum of 4"
    );
    assert_eq!(
        check_image(10, "image/bmp").unwrap_err().message(),
        "invalid image MIME type: image/bmp"
    );
    assert_eq!(
        check_image(1_000_001, "image/png").unwrap_err().message(),
        "image too large: 1000001 bytes exceeds maximum of 1000000 bytes"
    );
    assert!(check_image(1_000_000, "image/gif").is_ok());
    assert_eq!(
        classify_api_error("HTTP 429 Too Many".to_string(), "getPostThread").message(),
        "rate limited on getPostThread"
    );
    assert_eq!(
        classify_api_error("boom".to_string(), "getPostThread").message(),
        "API error: boom"
    );
    assert_eq!(BlueskyError::RateLimited { endpoint: None }.message(), "rate limited");
    assert_eq!(BlueskyError::NotConfigured.message(), "not configured");
    assert_eq!(mime_for_extension(Some("jpeg")), Some("image/jpeg"));
    assert_eq!(mime_for_extension(None), None);
}

#[test]
fn thread_metrics() {
    let posts = vec![
        post("at://root", "did:other", Some("2024-01-01T00:00:00Z")),
        post("at://1", "did:me", Some("2024-01-02T00:00:00Z")),
        post("at://2", "did:other", Some("2024-01-03T00:00:00Z")),
        post("at://3", "did:me", Some("2024-01-01T12:00:00Z")),
        post("at://4", "did:third", Some("2024-01-04T00:00:00Z")),
        post("at://5", "did:me", None),
    ];
    let (count, last, since) = participation_metrics(&posts, Some("did:me"));
    assert_eq!(count, 3);
    assert_eq!(last, Some("2024-01-02T00:00:00Z".to_string()));
    assert_eq!(since, 2);
    assert_eq!(participation_metrics(&posts, None), (0, None, 0));
    assert_eq!(participation_metrics(&posts, Some("did:nobody")), (0, None, 0));

    let ctx = build_thread_context(posts, Some("did:me")).unwrap();
    assert_eq!(ctx.root.uri, "at://root");
    assert_eq!(ctx.total_replies, 5);
    assert_eq!(ctx.participants, vec!["did:other", "did:me", "did:third"]);
    assert_eq!(ctx.my_reply_count, 3);
    assert_eq!(ctx.posts_since_my_last_reply, 2);
    assert_eq!(
        build_thread_context(Vec::new(), None).unwrap_err().message(),
        "API error: Empty thread"
    );
}
