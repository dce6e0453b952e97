use winter_mcp::inbox::{filter_items, Inbox, InboxItem, InboxItemKind};

fn job(id: &str, at: i64, name: &str) -> InboxItem<String> {
    InboxItem::job(id.to_string(), at, name, "do something".to_string())
}

fn note(id: &str, at: i64, uri: &str) -> InboxItem<String> {
    InboxItem::notification(id.to_string(), at, uri, None, "hello".to_string())
}

#[test]
fn test_inbox_push_and_items() {
    let mut inbox = Inbox::new();
    inbox.push(job("1", 1, "test_job"));
    inbox.push(InboxItem::system("2".to_string(), 2, "hello".to_string()));
    assert_eq!(inbox.len(), 2);
    assert!(!inbox.is_empty());
}

#[test]
fn test_inbox_priority_ordering() {
    let mut inbox = Inbox::new();
    inbox.push(job("1", 1, "low"));
    inbox.push(note("2", 2, "at://did:plc:test/app.bsky.feed.post/123"));
    let items = inbox.items();
    assert_eq!(items.len(), 2);
    assert_eq!(items[0].priority, 100);
    assert_eq!(items[1].priority, 50);
}

#[test]
fn test_inbox_acknowledge() {
    let mut inbox = Inbox::new();
    inbox.push(job("a", 1, "a"));
    inbox.push(job("b", 2, "b"));
    let first_id = inbox.items()[0].id.clone();
    let removed = inbox.acknowledge(&[first_id]);
    assert_eq!(removed, 1);
    assert_eq!(inbox.len(), 1);
}

#[test]
fn test_inbox_overflow_trimming() {
    let mut inbox = Inbox::with_max_size(3);
    for i in 0..3 {
        inbox.push(job(&format!("j{}", i), i, &format!("job_{}", i)));
    }
    assert_eq!(inbox.len(), 3);
    inbox.push(note("n", 10, "at://test"));
    assert_eq!(inbox.len(), 3);
    let ids: Vec<String> = inbox.items().iter().map(|i| i.id.clone()).collect();
    assert_eq!(ids, vec!["n", "j1", "j2"]);
}

// --- further cases ---

#[test]
fn items_sorted_by_priority_then_age_stably() {
    let mut inbox = Inbox::new();
    inbox.push(job("j-late", 30, "x"));
    inbox.push(InboxItem::direct_message("dm".to_string(), 40, "c1", "m1", String::new()));
    inbox.push(job("j-early", 10, "y"));
    inbox.push(job("j-same-a", 20, "z"));
    inbox.push(InboxItem::system("sys".to_string(), 20, String::new()));
    let ids: Vec<&str> = inbox.items().iter().map(|i| i.id.as_str()).collect();
    assert_eq!(ids, vec!["dm", "j-early", "j-same-a", "sys", "j-late"]);
}

#[test]
fn context_tags_and_priorities() {
    let n = InboxItem::notification("1".to_string(), 0, "at://p", Some("at://root"), ());
    assert_eq!(n.context_tag, "notification:at://p:root=at://root");
    let n2 = InboxItem::notification("1".to_string(), 0, "at://p", None, ());
    assert_eq!(n2.context_tag, "notification:at://p:root=at://p");
    let d = InboxItem::direct_message("2".to_string(), 0, "convo", "msg", ());
    assert_eq!((d.priority, d.context_tag.as_str()), (200, "dm:convo:msg"));
    let t = InboxItem::tool_approved("3".to_string(), 0, "rk", ());
    assert_eq!((t.priority, t.kind, t.context_tag.as_str()), (75, InboxItemKind::System, "tool_approved:rk"));
    let s = InboxItem::system("4".to_string(), 0, ());
    assert_eq!((s.priority, s.context_tag.as_str()), (50, "system"));
    assert_eq!(InboxItemKind::DirectMessage.name(), "direct_message");
}

#[test]
fn acknowledge_and_urgency() {
    let mut inbox = Inbox::new();
    inbox.push(job("a", 1, "a"));
    inbox.push(note("b", 2, "at://b"));
    inbox.push(job("c", 3, "c"));
    assert!(inbox.has_urgent(100));
    assert!(!inbox.has_urgent(101));
    let removed = inbox.acknowledge(&["a".to_string(), "c".to_string(), "zzz".to_string()]);
    assert_eq!(removed, 2);
    assert_eq!(inbox.len(), 1);
    assert!(!inbox.has_urgent(101));
    assert_eq!(inbox.acknowledge(&["b".to_string()]), 1);
    assert!(inbox.is_empty());
}

#[test]
fn check_filters() {
    let mut inbox = Inbox::new();
    inbox.push(job("a", 1, "a"));
    inbox.push(note("b", 2, "at://b"));
    inbox.push(InboxItem::system("c".to_string(), 3, String::new()));
    let sorted = inbox.items();
    let all = filter_items(&sorted, None, 0);
    assert_eq!(all.len(), 3);
    let kinds = vec!["job".to_string(), "system".to_string()];
    let some: Vec<&str> = filter_items(&sorted, Some(&kinds), 0).iter().map(|i| i.id.as_str()).collect();
    assert_eq!(some, vec!["a", "c"]);
    let urgent = filter_items(&sorted, None, 60);
    assert_eq!(urgent.len(), 1);
}
