use winter_mcp::blog::{
    apply_blog_update, blog_post_listed, blog_post_url, new_blog_entry, take_listed, BlogEntry,
    BlogOgp,
};
use winter_mcp::jobs::{check_once_job, check_recurring_job, job_is_listed, JobStatusKind};
use winter_mcp::json::{JsonNumber, JsonValue};

fn s(x: &str) -> JsonValue {
    JsonValue::String(x.to_string())
}

fn args(members: Vec<(&str, JsonValue)>) -> Vec<(String, JsonValue)> {
    members.into_iter().map(|(k, v)| (k.to_string(), v)).collect()
}

fn entry(title: &str, draft: bool) -> BlogEntry {
    BlogEntry {
        title: title.to_string(),
        content: "body".to_string(),
        created_at: "2025-01-01T00:00:00+00:00".to_string(),
        draft,
        theme: None,
        ogp: None,
    }
}

#[test]
fn new_blog_entry_from_arguments() {
    let a = args(vec![
        ("title", s("Hello")),
        ("content", s("# hi")),
        ("description", s("a first post")),
        ("theme", s("github-light")),
    ]);
    let e = new_blog_entry(&a, "2025-02-03T04:05:06+00:00".to_string()).unwrap();
    assert_eq!(e.title, "Hello");
    assert_eq!(e.content, "# hi");
    assert!(!e.draft);
    assert_eq!(e.theme.as_deref(), Some("github-light"));
    let ogp = e.ogp.unwrap();
    assert_eq!(ogp.title, None);
    assert_eq!(ogp.description.as_deref(), Some("a first post"));
    assert_eq!(e.created_at, "2025-02-03T04:05:06+00:00");
}

#[test]
fn new_blog_entry_refusals() {
    let e = new_blog_entry(&args(vec![("content", s("c"))]), String::new()).unwrap_err();
    assert_eq!(e, "Missing required parameter: title");
    let e = new_blog_entry(&args(vec![("title", s("t"))]), String::new()).unwrap_err();
    assert_eq!(e, "Missing required parameter: content");
}

#[test]
fn blog_update_keeps_ogp_title() {
    let mut before = entry("Old", true);
    before.ogp = Some(BlogOgp { title: Some("OG".to_string()), description: None });
    let after = apply_blog_update(
        before,
        &args(vec![("draft", JsonValue::Bool(false)), ("description", s("new desc"))]),
    );
    assert_eq!(after.title, "Old");
    assert!(!after.draft);
    let ogp = after.ogp.unwrap();
    assert_eq!(ogp.title.as_deref(), Some("OG"));
    assert_eq!(ogp.description.as_deref(), Some("new desc"));
}

#[test]
fn blog_urls_and_listing() {
    assert_eq!(
        blog_post_url("winter.bsky.social", "3abc"),
        "https://greengale.app/winter.bsky.social/3abc"
    );
    let e = entry("Rust Notes", false);
    assert!(blog_post_listed(&e, None, Some("rust")));
    assert!(blog_post_listed(&e, Some(false), Some("NOTES")));
    assert!(!blog_post_listed(&e, Some(true), None));
    assert!(!blog_post_listed(&e, None, Some("python")));
}

#[test]
fn take_listed_respects_limit() {
    let listed = vec![true, false, true, true, false, true];
    assert_eq!(take_listed(&listed, None), vec![0, 2, 3, 5]);
    assert_eq!(take_listed(&listed, Some(2)), vec![0, 2]);
    assert_eq!(take_listed(&listed, Some(0)), Vec::<usize>::new());
    assert_eq!(take_listed(&listed, Some(10)), vec![0, 2, 3, 5]);
}

#[test]
fn once_job_arguments() {
    let a = args(vec![
        ("name", s("digest")),
        ("instructions", s("summarize")),
        ("run_at", s("2025-06-01T12:00:00Z")),
    ]);
    let (n, i, t) = check_once_job(&a).unwrap();
    assert_eq!((n.as_str(), i.as_str(), t.as_str()), ("digest", "summarize", "2025-06-01T12:00:00Z"));
    let e = check_once_job(&args(vec![("name", s("x")), ("instructions", s("y"))])).unwrap_err();
    assert_eq!(e, "Missing required parameter: run_at");
}

#[test]
fn recurring_job_interval_must_be_positive() {
    let a = args(vec![
        ("name", s("n")),
        ("instructions", s("i")),
        ("interval_seconds", JsonValue::Number(JsonNumber::Unsigned(0))),
    ]);
    assert_eq!(
        check_recurring_job(&a).unwrap_err(),
        "interval_seconds must be greater than 0"
    );
    let b = args(vec![
        ("name", s("n")),
        ("instructions", s("i")),
        ("interval_seconds", JsonValue::Number(JsonNumber::Unsigned(3600))),
    ]);
    assert_eq!(check_recurring_job(&b).unwrap().2, 3600);
    let c = args(vec![("name", s("n")), ("instructions", s("i"))]);
    assert_eq!(
        check_recurring_job(&c).unwrap_err(),
        "Missing required parameter: interval_seconds"
    );
}

#[test]
fn job_listing_filters() {
    assert!(job_is_listed("Daily Digest", JobStatusKind::Pending, Some("pending"), Some("digest")));
    assert!(!job_is_listed("Daily Digest", JobStatusKind::Failed, Some("pending"), None));
    assert!(!job_is_listed("Daily Digest", JobStatusKind::Running, None, Some("weekly")));
    assert_eq!(JobStatusKind::Completed.name(), "completed");
}
