use winter_mcp::bluesky::{NotificationReason, PostRef};
use winter_mcp::notifications::{fresh_notifications, RawNotification};

fn raw(reason: &str, indexed_at: &str, uri: &str) -> RawNotification {
    RawNotification {
        reason: reason.to_string(),
        author_did: "did:plc:alice".to_string(),
        author_handle: "alice.test".to_string(),
        indexed_at: indexed_at.to_string(),
        uri: uri.to_string(),
        cid: "bafy".to_string(),
        text: Some("hi".to_string()),
        parent: None,
        root: Some(PostRef { uri: "at://root".to_string(), cid: "rc".to_string() }),
        facets: vec![],
    }
}

#[test]
fn drops_seen_and_unknown() {
    let batch = vec![
        raw("mention", "2024-05-01T12:00:00Z", "at://n1"),
        raw("starterpack-joined", "2024-05-01T11:00:00Z", "at://n2"),
        raw("reply", "2024-05-01T10:00:00.5Z", "at://n3"),
        // Same instant as the last seen one, in another offset.
        raw("like", "2024-05-01T12:00:00+02:00", "at://n4"),
        raw("follow", "2024-05-01T09:00:00Z", "at://n5"),
    ];
    let (fresh, cursor) = fresh_notifications(batch, Some("2024-05-01T10:00:00Z".to_string()));
    let uris: Vec<&str> = fresh.iter().map(|n| n.uri.as_str()).collect();
    assert_eq!(uris, vec!["at://n1", "at://n3"]);
    assert_eq!(fresh[0].reason, NotificationReason::Mention);
    assert_eq!(fresh[1].reason, NotificationReason::Reply);
    assert_eq!(fresh[1].root.as_ref().map(|r| r.uri.as_str()), Some("at://root"));
    assert_eq!(cursor, Some("2024-05-01T12:00:00Z".to_string()));
}

#[test]
fn without_last_seen_keeps_all_known() {
    let batch = vec![raw("quote", "2024-05-01T12:00:00Z", "at://a"), raw("repost", "not a time", "at://b")];
    let (fresh, cursor) = fresh_notifications(batch, None);
    assert_eq!(fresh.len(), 2);
    assert_eq!(cursor, Some("2024-05-01T12:00:00Z".to_string()));
}

#[test]
fn unparsable_times_are_not_seen() {
    let batch = vec![raw("mention", "yesterday", "at://a")];
    let (fresh, _) = fresh_notifications(batch, Some("2024-05-01T10:00:00Z".to_string()));
    assert_eq!(fresh.len(), 1);
    let (fresh, _) = fresh_notifications(vec![raw("mention", "2020-01-01T00:00:00Z", "at://a")], Some("garbage".to_string()));
    assert_eq!(fresh.len(), 1);
}

#[test]
fn empty_batch_keeps_cursor() {
    let (fresh, cursor) = fresh_notifications(vec![], Some("2024-05-01T10:00:00Z".to_string()));
    assert!(fresh.is_empty());
    assert_eq!(cursor, Some("2024-05-01T10:00:00Z".to_string()));
}
