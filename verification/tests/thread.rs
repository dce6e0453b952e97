use winter_mcp::bluesky::BlueskyError;
use winter_mcp::thread::{
    flatten_thread, thread_context, ThreadNode, ThreadPostData, ThreadReply, ThreadView,
};

fn data(name: &str, author: &str) -> ThreadPostData {
    ThreadPostData {
        uri: format!("at://{}/app.bsky.feed.post/{}", author, name),
        cid: format!("cid-{}", name),
        author_did: author.to_string(),
        author_handle: format!("{}.test", name),
        text: Some(format!("text of {}", name)),
        created_at: Some(format!("2024-01-01T00:00:0{}Z", name.len())),
        reply_count: None,
    }
}

fn node(name: &str, author: &str, replies: Vec<ThreadReply>) -> ThreadNode {
    ThreadNode { post: data(name, author), replies }
}

fn reply(name: &str, author: &str, replies: Vec<ThreadReply>) -> ThreadReply {
    ThreadReply::Post(Box::new(node(name, author, replies)))
}

fn sample() -> (Vec<ThreadPostData>, ThreadNode) {
    let parents = vec![data("p", "did:plc:b"), data("r", "did:plc:a")];
    let target = node(
        "t",
        "did:plc:c",
        vec![
            reply("a", "did:plc:a", vec![reply("a1", "did:plc:me", vec![])]),
            ThreadReply::Unavailable,
            reply(
                "b",
                "did:plc:b",
                vec![reply("b1", "did:plc:c", vec![reply("b1a", "did:plc:a", vec![])]), reply("b2", "did:plc:me", vec![])],
            ),
        ],
    );
    (parents, target)
}

#[test]
fn flatten_thread_orders_ancestors_target_then_replies() {
    let (parents, target) = sample();
    let posts = flatten_thread(&parents, &target);
    let names: Vec<String> =
        posts.iter().map(|p| p.uri.rsplit('/').next().unwrap().to_string()).collect();
    assert_eq!(names, vec!["r", "p", "t", "a", "b", "b1", "b2", "b1a", "a1"]);
    let depths: Vec<u32> = posts.iter().map(|p| p.depth).collect();
    assert_eq!(depths, vec![0, 1, 2, 3, 3, 4, 4, 5, 4]);
    assert_eq!(posts[0].parent_uri, None);
    assert_eq!(posts[1].parent_uri.as_deref(), Some("at://did:plc:a/app.bsky.feed.post/r"));
    assert_eq!(posts[2].parent_uri.as_deref(), Some("at://did:plc:b/app.bsky.feed.post/p"));
    assert_eq!(posts[7].parent_uri.as_deref(), Some("at://did:plc:c/app.bsky.feed.post/b1"));
    assert_eq!(posts[8].parent_uri.as_deref(), Some("at://did:plc:a/app.bsky.feed.post/a"));
    assert_eq!(posts[3].text.as_deref(), Some("text of a"));
}

#[test]
fn flatten_thread_without_parents_starts_at_the_target() {
    let target = node("t", "did:plc:c", vec![ThreadReply::Unavailable]);
    let posts = flatten_thread(&vec![], &target);
    assert_eq!(posts.len(), 1);
    assert_eq!(posts[0].depth, 0);
    assert_eq!(posts[0].parent_uri, None);
}

#[test]
fn thread_context_counts_replies_and_participants() {
    let (parents, target) = sample();
    let c = thread_context(ThreadView::Post { parents, node: target }, Some("did:plc:me")).unwrap();
    assert!(c.root.uri.ends_with("/r"));
    assert_eq!(c.posts.len(), 9);
    assert_eq!(c.total_replies, 8);
    let mut participants = c.participants.clone();
    participants.sort();
    assert_eq!(participants, vec!["did:plc:a", "did:plc:b", "did:plc:c", "did:plc:me"]);
    assert_eq!(c.my_reply_count, 2);
}

#[test]
fn thread_context_errors_for_unavailable_threads() {
    match thread_context(ThreadView::Blocked, None) {
        Err(BlueskyError::Api(m)) => assert_eq!(m, "Thread is blocked"),
        _ => panic!("expected an error"),
    }
    match thread_context(ThreadView::NotFound, None) {
        Err(BlueskyError::Api(m)) => assert_eq!(m, "Thread not found"),
        _ => panic!("expected an error"),
    }
    match thread_context(ThreadView::Unknown, None) {
        Err(BlueskyError::Api(m)) => assert_eq!(m, "Unknown thread type"),
        _ => panic!("expected an error"),
    }
}

#[test]
fn flattened_posts_follow_their_parents() {
    let (parents, target) = sample();
    let posts = flatten_thread(&parents, &target);
    for k in 1..posts.len() {
        let parent = posts[k].parent_uri.clone().expect("every post but the root has a parent");
        let found = posts[..k]
            .iter()
            .any(|p| p.uri == parent && p.depth + 1 == posts[k].depth);
        assert!(found, "post {} has no earlier parent", posts[k].uri);
    }
}
