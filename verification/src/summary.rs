//! Summaries of tool calls for the thought stream: the category of each
//! tool's result, web links to records, which tools may be slow, and
//! character-safe truncation.

use vstd::prelude::*;
use crate::text::{str_eq, str_chars};

verus! {

// ---------------------------------------------------------------------------
// Truncation
// ---------------------------------------------------------------------------

/// The first `max` characters of `s`, or all of `s` if it is shorter.
pub open spec fn take_chars(s: Seq<char>, max: nat) -> Seq<char> {
    if s.len() <= max {
        s
    } else {
        s.subrange(0, max as int)
    }
}

/// `s` cut to `max` characters, with `...` appended when it was cut.
pub open spec fn truncated_with_ellipsis(s: Seq<char>, max: nat) -> Seq<char> {
    if s.len() <= max {
        s
    } else {
        s.subrange(0, max as int) + "..."@
    }
}

/// Truncate a string to a maximum number of characters (not bytes),
/// appending `...` when it is cut.  Safe for multi-byte characters.
pub fn truncate_chars(s: &str, max_chars: usize) -> (r: String)
    ensures
        r@ == truncated_with_ellipsis(s@, max_chars as nat),
{
    let n = s.unicode_len();
    if n <= max_chars {
        String::from_str(s)
    } else {
        let mut out = String::from_str(s.substring_char(0, max_chars));
        out.append("...");
        out
    }
}

/// Truncate a string for summary display (UTF-8 safe), appending `...`
/// when it is cut.
pub fn truncate_for_summary(s: &str, max_chars: usize) -> (r: String)
    ensures
        r@ == truncated_with_ellipsis(s@, max_chars as nat),
{
    truncate_chars(s, max_chars)
}

/// Truncate a string without adding a `...` suffix (UTF-8 safe).
pub fn truncate_string(s: &str, max_chars: usize) -> (r: String)
    ensures
        r@ == take_chars(s@, max_chars as nat),
{
    let n = s.unicode_len();
    if n <= max_chars {
        String::from_str(s)
    } else {
        String::from_str(s.substring_char(0, max_chars))
    }
}

/// Truncation keeps a prefix of the text.
pub proof fn law_truncate_keeps_prefix(s: Seq<char>, max: nat)
    ensures
        take_chars(s, max).len() == if s.len() <= max { s.len() } else { max },
        take_chars(s, max) == s.subrange(0, take_chars(s, max).len() as int),
        truncated_with_ellipsis(s, max).subrange(0, take_chars(s, max).len() as int)
            == take_chars(s, max),
{
    assert(s.subrange(0, s.len() as int) =~= s);
    if s.len() > max {
        assert((s.subrange(0, max as int) + "..."@).subrange(0, max as int) =~= s.subrange(
            0,
            max as int,
        ));
    }
}

/// Text no longer than the limit is left as it is.
pub proof fn law_truncate_short_unchanged(s: Seq<char>, max: nat)
    requires
        s.len() <= max,
    ensures
        take_chars(s, max) == s,
        truncated_with_ellipsis(s, max) == s,
{
}

// ---------------------------------------------------------------------------
// Web links
// ---------------------------------------------------------------------------

/// `s` without its trailing `c` characters, as `trim_end_matches` gives it.
pub open spec fn trim_end_char(s: Seq<char>, c: char) -> Seq<char>
    decreases s.len(),
{
    if s.len() > 0 && s.last() == c {
        trim_end_char(s.drop_last(), c)
    } else {
        s
    }
}

/// The web UI link for a record: the base URL without trailing slashes,
/// the section and the record key, joined by slashes.
pub open spec fn web_link(base: Seq<char>, web_path: Seq<char>, rkey: Seq<char>) -> Seq<char> {
    trim_end_char(base, '/') + "/"@ + web_path + "/"@ + rkey
}

/// Generate a web UI link for a record, when a web UI base URL is
/// configured (`base`, read from the environment by the caller).
pub fn make_web_link(base: Option<&str>, web_path: &str, rkey: &str) -> (r: Option<String>)
    ensures
        match base {
            Some(b) => r matches Some(l) && l@ == web_link(b@, web_path@, rkey@),
            None => r is None,
        },
{
    match base {
        None => None,
        Some(b) => {
            let v = str_chars(b);
            let mut e: usize = v.len();
            assert(v@.subrange(0, e as int) =~= v@);
            while e > 0 && v[e - 1] == '/'
                invariant
                    e <= v.len(),
                    trim_end_char(v@, '/') == trim_end_char(v@.subrange(0, e as int), '/'),
                decreases e,
            {
                assert(v@.subrange(0, e as int).drop_last() =~= v@.subrange(0, e - 1));
                e = e - 1;
            }
            proof {
                if e > 0 {
                    assert(v@.subrange(0, e as int).last() == v@[e - 1]);
                }
            }
            let mut link = String::from_str(b.substring_char(0, e));
            link.append("/");
            link.append(web_path);
            link.append("/");
            link.append(rkey);
            Some(link)
        },
    }
}

// ---------------------------------------------------------------------------
// Slow tools
// ---------------------------------------------------------------------------

/// Tools that may take long: datalog queries, handle and DID resolution,
/// and Bluesky reads.
pub open spec fn slow_tool_names() -> Seq<Seq<char>> {
    seq![
        "query_facts"@,
        "list_validation_errors"@,
        "list_predicates"@,
        "resolve_handle"@,
        "resolve_did"@,
        "get_profile"@,
        "get_timeline"@,
        "search_posts"@,
        "search_users"@,
        "get_thread_context"@,
        "get_notifications"@,
    ]
}

/// Whether a tool may take long enough to deserve early feedback.
pub fn is_potentially_slow_tool(name: &str) -> (r: bool)
    ensures
        r == slow_tool_names().contains(name@),
{
    let names: Vec<&str> = vec![
        "query_facts",
        "list_validation_errors",
        "list_predicates",
        "resolve_handle",
        "resolve_did",
        "get_profile",
        "get_timeline",
        "search_posts",
        "search_users",
        "get_thread_context",
        "get_notifications",
    ];
    assert(names@.map_values(|s: &str| s@) =~= slow_tool_names());
    let mut i: usize = 0;
    while i < names.len()
        invariant
            i <= names@.len(),
            names@.map_values(|s: &str| s@) == slow_tool_names(),
            forall|k: int| 0 <= k < i ==> slow_tool_names()[k] != name@,
        decreases names@.len() - i,
    {
        assert(names@[i as int]@ == slow_tool_names()[i as int]);
        if str_eq(names[i], name) {
            return true;
        }
        i = i + 1;
    }
    false
}

// ---------------------------------------------------------------------------
// Result categories
// ---------------------------------------------------------------------------

/// Types of Bluesky read operations for specialized summaries.
#[derive(Debug, Clone, Copy, PartialEq, Eq, Structural)]
pub enum BlueskyReadType {
    /// Timeline: count and authors.
    Timeline,
    /// Notifications: count and reasons.
    Notifications,
    /// Search results: query, count, cursor.
    Search,
    /// Thread context: root author, reply counts.
    Thread,
}

/// Category of a tool's result, which decides how it is summarized.
#[derive(Debug, Clone)]
pub enum ToolResultCategory {
    /// Single record create/update: key fields and an optional web UI link.
    SingleMutation { key_fields: Vec<&'static str>, web_path: Option<&'static str> },
    /// Batch mutation: count and a sample of created items.
    BatchMutation { count_field: &'static str, sample_field: &'static str, sample_key: &'static str },
    /// List operation: count and a sample of items.
    List { count_field: &'static str, items_field: &'static str, sample_key: &'static str },
    /// Query operation: query string, count and sample results.
    Query,
    /// Get a single record: key fields and content size.
    Get { key_fields: Vec<&'static str>, size_field: Option<&'static str> },
    /// Bluesky read operations with specialized summaries.
    BlueskyRead(BlueskyReadType),
    /// Custom tool execution: result preview and metadata.
    Custom,
    /// Excluded from thought recording.
    Excluded,
}

/// The content of a result category.
pub enum CategoryModel {
    SingleMutation { key_fields: Seq<&'static str>, web_path: Option<&'static str> },
    BatchMutation { count_field: &'static str, sample_field: &'static str, sample_key: &'static str },
    List { count_field: &'static str, items_field: &'static str, sample_key: &'static str },
    Query,
    Get { key_fields: Seq<&'static str>, size_field: Option<&'static str> },
    BlueskyRead(BlueskyReadType),
    Custom,
    Excluded,
}

impl View for ToolResultCategory {
    type V = CategoryModel;

    open spec fn view(&self) -> CategoryModel {
        match self {
            ToolResultCategory::SingleMutation { key_fields, web_path } => CategoryModel::SingleMutation {
                key_fields: key_fields@,
                web_path: *web_path,
            },
            ToolResultCategory::BatchMutation { count_field, sample_field, sample_key } => CategoryModel::BatchMutation {
                count_field: *count_field,
                sample_field: *sample_field,
                sample_key: *sample_key,
            },
            ToolResultCategory::List { count_field, items_field, sample_key } => CategoryModel::List {
                count_field: *count_field,
                items_field: *items_field,
                sample_key: *sample_key,
            },
            ToolResultCategory::Query => CategoryModel::Query,
            ToolResultCategory::Get { key_fields, size_field } => CategoryModel::Get {
                key_fields: key_fields@,
                size_field: *size_field,
            },
            ToolResultCategory::BlueskyRead(t) => CategoryModel::BlueskyRead(*t),
            ToolResultCategory::Custom => CategoryModel::Custom,
            ToolResultCategory::Excluded => CategoryModel::Excluded,
        }
    }
}

/// The result category of each tool; unknown tools are custom.
pub open spec fn tool_category_spec(name: Seq<char>) -> CategoryModel {
    if name == "create_fact"@ {
        CategoryModel::SingleMutation { key_fields: seq!["rkey", "predicate"], web_path: Some("facts") }
    } else if name == "update_fact"@ {
        CategoryModel::SingleMutation { key_fields: seq!["rkey", "predicate", "supersedes_rkey"], web_path: Some("facts") }
    } else if name == "delete_fact"@ {
        CategoryModel::SingleMutation { key_fields: seq!["deleted", "rkey"], web_path: None }
    } else if name == "create_note"@ {
        CategoryModel::SingleMutation { key_fields: seq!["rkey", "title"], web_path: Some("notes") }
    } else if name == "schedule_job"@ {
        CategoryModel::SingleMutation { key_fields: seq!["rkey", "name", "next_run"], web_path: Some("jobs") }
    } else if name == "schedule_recurring"@ {
        CategoryModel::SingleMutation { key_fields: seq!["rkey", "name", "interval_seconds"], web_path: Some("jobs") }
    } else if name == "update_job"@ {
        CategoryModel::SingleMutation { key_fields: seq!["rkey", "name"], web_path: Some("jobs") }
    } else if name == "cancel_job"@ {
        CategoryModel::SingleMutation { key_fields: seq!["cancelled", "rkey"], web_path: None }
    } else if name == "create_directive"@ {
        CategoryModel::SingleMutation { key_fields: seq!["rkey", "kind"], web_path: Some("directives") }
    } else if name == "update_directive"@ {
        CategoryModel::SingleMutation { key_fields: seq!["rkey", "kind", "changes"], web_path: Some("directives") }
    } else if name == "deactivate_directive"@ {
        CategoryModel::SingleMutation { key_fields: seq!["rkey", "kind", "deactivated"], web_path: None }
    } else if name == "create_rule"@ {
        CategoryModel::SingleMutation { key_fields: seq!["rkey", "name", "head"], web_path: Some("rules") }
    } else if name == "update_rule"@ {
        CategoryModel::SingleMutation { key_fields: seq!["rkey", "name"], web_path: Some("rules") }
    } else if name == "delete_rule"@ {
        CategoryModel::SingleMutation { key_fields: seq!["deleted", "rkey"], web_path: None }
    } else if name == "toggle_rule"@ {
        CategoryModel::SingleMutation { key_fields: seq!["rkey", "name", "enabled"], web_path: Some("rules") }
    } else if name == "create_custom_tool"@ {
        CategoryModel::SingleMutation { key_fields: seq!["rkey", "name", "version"], web_path: Some("tools") }
    } else if name == "update_custom_tool"@ {
        CategoryModel::SingleMutation { key_fields: seq!["rkey", "name", "version"], web_path: Some("tools") }
    } else if name == "delete_custom_tool"@ {
        CategoryModel::SingleMutation { key_fields: seq!["deleted", "name"], web_path: None }
    } else if name == "create_fact_declaration"@ {
        CategoryModel::SingleMutation { key_fields: seq!["rkey", "predicate"], web_path: Some("declarations") }
    } else if name == "update_fact_declaration"@ {
        CategoryModel::SingleMutation { key_fields: seq!["rkey", "predicate"], web_path: Some("declarations") }
    } else if name == "delete_fact_declaration"@ {
        CategoryModel::SingleMutation { key_fields: seq!["deleted", "rkey"], web_path: None }
    } else if name == "publish_blog_post"@ {
        CategoryModel::SingleMutation { key_fields: seq!["rkey", "title"], web_path: Some("blog") }
    } else if name == "update_blog_post"@ {
        CategoryModel::SingleMutation { key_fields: seq!["rkey", "title"], web_path: Some("blog") }
    } else if name == "create_wiki_entry"@ {
        CategoryModel::SingleMutation { key_fields: seq!["rkey", "title", "slug"], web_path: Some("wiki") }
    } else if name == "update_wiki_entry"@ {
        CategoryModel::SingleMutation { key_fields: seq!["rkey", "title", "slug"], web_path: Some("wiki") }
    } else if name == "delete_wiki_entry"@ {
        CategoryModel::SingleMutation { key_fields: seq!["deleted", "rkey"], web_path: None }
    } else if name == "create_wiki_link"@ {
        CategoryModel::SingleMutation { key_fields: seq!["rkey", "source", "link_type"], web_path: None }
    } else if name == "delete_wiki_link"@ {
        CategoryModel::SingleMutation { key_fields: seq!["deleted", "rkey"], web_path: None }
    } else if name == "create_trigger"@ {
        CategoryModel::SingleMutation { key_fields: seq!["rkey", "name"], web_path: None }
    } else if name == "update_trigger"@ {
        CategoryModel::SingleMutation { key_fields: seq!["rkey", "name"], web_path: None }
    } else if name == "delete_trigger"@ {
        CategoryModel::SingleMutation { key_fields: seq!["deleted", "rkey"], web_path: None }
    } else if name == "list_triggers"@ {
        CategoryModel::List { count_field: "count", items_field: "triggers", sample_key: "name" }
    } else if name == "test_trigger"@ {
        CategoryModel::Query
    } else if name == "pds_put_record"@ {
        CategoryModel::SingleMutation { key_fields: seq!["uri", "collection", "rkey"], web_path: None }
    } else if name == "pds_delete_record"@ {
        CategoryModel::SingleMutation { key_fields: seq!["deleted", "collection", "rkey"], web_path: None }
    } else if name == "post_to_bluesky"@ {
        CategoryModel::SingleMutation { key_fields: seq!["uri"], web_path: None }
    } else if name == "reply_to_bluesky"@ {
        CategoryModel::SingleMutation { key_fields: seq!["uri"], web_path: None }
    } else if name == "send_bluesky_dm"@ {
        CategoryModel::SingleMutation { key_fields: seq!["message_id"], web_path: None }
    } else if name == "reply_to_dm"@ {
        CategoryModel::SingleMutation { key_fields: seq!["message_id"], web_path: None }
    } else if name == "like_post"@ {
        CategoryModel::SingleMutation { key_fields: seq!["like_uri"], web_path: None }
    } else if name == "follow_user"@ {
        CategoryModel::SingleMutation { key_fields: seq!["follow_uri"], web_path: None }
    } else if name == "mute_user"@ || name == "unmute_user"@ || name == "block_user"@ || name == "unblock_user"@ || name == "mute_thread"@ || name == "unmute_thread"@ {
        CategoryModel::SingleMutation { key_fields: seq!["success"], web_path: None }
    } else if name == "delete_post"@ {
        CategoryModel::SingleMutation { key_fields: seq!["deleted", "post_uri"], web_path: None }
    } else if name == "create_facts"@ {
        CategoryModel::BatchMutation { count_field: "created", sample_field: "results", sample_key: "predicate" }
    } else if name == "create_directives"@ {
        CategoryModel::BatchMutation { count_field: "created", sample_field: "results", sample_key: "kind" }
    } else if name == "create_rules"@ {
        CategoryModel::BatchMutation { count_field: "created", sample_field: "results", sample_key: "name" }
    } else if name == "create_fact_declarations"@ {
        CategoryModel::BatchMutation { count_field: "created", sample_field: "results", sample_key: "predicate" }
    } else if name == "list_notes"@ {
        CategoryModel::List { count_field: "count", items_field: "notes", sample_key: "title" }
    } else if name == "list_jobs"@ {
        CategoryModel::List { count_field: "count", items_field: "jobs", sample_key: "name" }
    } else if name == "list_directives"@ {
        CategoryModel::List { count_field: "count", items_field: "directives", sample_key: "kind" }
    } else if name == "list_rules"@ {
        CategoryModel::List { count_field: "count", items_field: "rules", sample_key: "name" }
    } else if name == "list_thoughts"@ {
        CategoryModel::List { count_field: "count", items_field: "thoughts", sample_key: "kind" }
    } else if name == "list_custom_tools"@ {
        CategoryModel::List { count_field: "count", items_field: "tools", sample_key: "name" }
    } else if name == "list_fact_declarations"@ {
        CategoryModel::List { count_field: "count", items_field: "declarations", sample_key: "predicate" }
    } else if name == "list_blog_posts"@ {
        CategoryModel::List { count_field: "count", items_field: "posts", sample_key: "title" }
    } else if name == "list_wiki_entries"@ {
        CategoryModel::List { count_field: "count", items_field: "entries", sample_key: "title" }
    } else if name == "list_wiki_links"@ {
        CategoryModel::List { count_field: "count", items_field: "links", sample_key: "link_type" }
    } else if name == "list_secrets"@ {
        CategoryModel::List { count_field: "count", items_field: "secrets", sample_key: "name" }
    } else if name == "pds_list_records"@ {
        CategoryModel::List { count_field: "count", items_field: "records", sample_key: "rkey" }
    } else if name == "pds_get_records"@ {
        CategoryModel::List { count_field: "count", items_field: "records", sample_key: "uri" }
    } else if name == "list_predicates"@ {
        CategoryModel::List { count_field: "total", items_field: "predicates", sample_key: "name" }
    } else if name == "list_validation_errors"@ {
        CategoryModel::List { count_field: "count", items_field: "errors", sample_key: "predicate" }
    } else if name == "query_facts"@ {
        CategoryModel::Query
    } else if name == "query_and_enrich"@ {
        CategoryModel::Query
    } else if name == "get_note"@ {
        CategoryModel::Get { key_fields: seq!["rkey", "title"], size_field: Some("content") }
    } else if name == "get_job"@ {
        CategoryModel::Get { key_fields: seq!["rkey", "name", "schedule"], size_field: Some("instructions") }
    } else if name == "get_thought"@ {
        CategoryModel::Get { key_fields: seq!["rkey", "kind"], size_field: Some("content") }
    } else if name == "get_custom_tool"@ {
        CategoryModel::Get { key_fields: seq!["name", "version", "approved"], size_field: Some("code") }
    } else if name == "get_blog_post"@ {
        CategoryModel::Get { key_fields: seq!["rkey", "title"], size_field: Some("content") }
    } else if name == "get_wiki_entry"@ || name == "get_wiki_entry_by_slug"@ {
        CategoryModel::Get { key_fields: seq!["rkey", "title", "slug"], size_field: Some("content") }
    } else if name == "pds_get_record"@ {
        CategoryModel::Get { key_fields: seq!["collection", "rkey"], size_field: None }
    } else if name == "get_identity"@ {
        CategoryModel::Get { key_fields: seq!["operator_did"], size_field: None }
    } else if name == "get_timeline"@ {
        CategoryModel::BlueskyRead(BlueskyReadType::Timeline)
    } else if name == "get_notifications"@ {
        CategoryModel::BlueskyRead(BlueskyReadType::Notifications)
    } else if name == "search_posts"@ || name == "search_users"@ {
        CategoryModel::BlueskyRead(BlueskyReadType::Search)
    } else if name == "get_thread_context"@ {
        CategoryModel::BlueskyRead(BlueskyReadType::Thread)
    } else if name == "run_custom_tool"@ {
        CategoryModel::Custom
    } else if name == "record_thought"@ {
        CategoryModel::Excluded
    } else if name == "check_interruption"@ {
        CategoryModel::Get { key_fields: seq!["interrupted", "reason"], size_field: None }
    } else if name == "session_stats"@ {
        CategoryModel::Get { key_fields: seq!["context_used_pct", "turn_count"], size_field: None }
    } else if name == "set_active_context"@ {
        CategoryModel::Get { key_fields: seq!["active_context", "status"], size_field: None }
    } else {
        CategoryModel::Custom
    }
}

/// Get the result category for a tool.
pub fn get_tool_category(tool_name: &str) -> (r: ToolResultCategory)
    ensures
        r@ == tool_category_spec(tool_name@),
{
    if str_eq(tool_name, "create_fact") {
        let kf: Vec<&'static str> = vec!["rkey", "predicate"];
        assert(kf@ =~= seq!["rkey", "predicate"]);
        ToolResultCategory::SingleMutation { key_fields: kf, web_path: Some("facts") }
    } else if str_eq(tool_name, "update_fact") {
        let kf: Vec<&'static str> = vec!["rkey", "predicate", "supersedes_rkey"];
        assert(kf@ =~= seq!["rkey", "predicate", "supersedes_rkey"]);
        ToolResultCategory::SingleMutation { key_fields: kf, web_path: Some("facts") }
    } else if str_eq(tool_name, "delete_fact") {
        let kf: Vec<&'static str> = vec!["deleted", "rkey"];
        assert(kf@ =~= seq!["deleted", "rkey"]);
        ToolResultCategory::SingleMutation { key_fields: kf, web_path: None }
    } else if str_eq(tool_name, "create_note") {
        let kf: Vec<&'static str> = vec!["rkey", "title"];
        assert(kf@ =~= seq!["rkey", "title"]);
        ToolResultCategory::SingleMutation { key_fields: kf, web_path: Some("notes") }
    } else if str_eq(tool_name, "schedule_job") {
        let kf: Vec<&'static str> = vec!["rkey", "name", "next_run"];
        assert(kf@ =~= seq!["rkey", "name", "next_run"]);
        ToolResultCategory::SingleMutation { key_fields: kf, web_path: Some("jobs") }
    } else if str_eq(tool_name, "schedule_recurring") {
        let kf: Vec<&'static str> = vec!["rkey", "name", "interval_seconds"];
        assert(kf@ =~= seq!["rkey", "name", "interval_seconds"]);
        ToolResultCategory::SingleMutation { key_fields: kf, web_path: Some("jobs") }
    } else if str_eq(tool_name, "update_job") {
        let kf: Vec<&'static str> = vec!["rkey", "name"];
        assert(kf@ =~= seq!["rkey", "name"]);
        ToolResultCategory::SingleMutation { key_fields: kf, web_path: Some("jobs") }
    } else if str_eq(tool_name, "cancel_job") {
        let kf: Vec<&'static str> = vec!["cancelled", "rkey"];
        assert(kf@ =~= seq!["cancelled", "rkey"]);
        ToolResultCategory::SingleMutation { key_fields: kf, web_path: None }
    } else if str_eq(tool_name, "create_directive") {
        let kf: Vec<&'static str> = vec!["rkey", "kind"];
        assert(kf@ =~= seq!["rkey", "kind"]);
        ToolResultCategory::SingleMutation { key_fields: kf, web_path: Some("directives") }
    } else if str_eq(tool_name, "update_directive") {
        let kf: Vec<&'static str> = vec!["rkey", "kind", "changes"];
        assert(kf@ =~= seq!["rkey", "kind", "changes"]);
        ToolResultCategory::SingleMutation { key_fields: kf, web_path: Some("directives") }
    } else if str_eq(tool_name, "deactivate_directive") {
        let kf: Vec<&'static str> = vec!["rkey", "kind", "deactivated"];
        assert(kf@ =~= seq!["rkey", "kind", "deactivated"]);
        ToolResultCategory::SingleMutation { key_fields: kf, web_path: None }
    } else if str_eq(tool_name, "create_rule") {
        let kf: Vec<&'static str> = vec!["rkey", "name", "head"];
        assert(kf@ =~= seq!["rkey", "name", "head"]);
        ToolResultCategory::SingleMutation { key_fields: kf, web_path: Some("rules") }
    } else if str_eq(tool_name, "update_rule") {
        let kf: Vec<&'static str> = vec!["rkey", "name"];
        assert(kf@ =~= seq!["rkey", "name"]);
        ToolResultCategory::SingleMutation { key_fields: kf, web_path: Some("rules") }
    } else if str_eq(tool_name, "delete_rule") {
        let kf: Vec<&'static str> = vec!["deleted", "rkey"];
        assert(kf@ =~= seq!["deleted", "rkey"]);
        ToolResultCategory::SingleMutation { key_fields: kf, web_path: None }
    } else if str_eq(tool_name, "toggle_rule") {
        let kf: Vec<&'static str> = vec!["rkey", "name", "enabled"];
        assert(kf@ =~= seq!["rkey", "name", "enabled"]);
        ToolResultCategory::SingleMutation { key_fields: kf, web_path: Some("rules") }
    } else if str_eq(tool_name, "create_custom_tool") {
        let kf: Vec<&'static str> = vec!["rkey", "name", "version"];
        assert(kf@ =~= seq!["rkey", "name", "version"]);
        ToolResultCategory::SingleMutation { key_fields: kf, web_path: Some("tools") }
    } else if str_eq(tool_name, "update_custom_tool") {
        let kf: Vec<&'static str> = vec!["rkey", "name", "version"];
        assert(kf@ =~= seq!["rkey", "name", "version"]);
        ToolResultCategory::SingleMutation { key_fields: kf, web_path: Some("tools") }
    } else if str_eq(tool_name, "delete_custom_tool") {
        let kf: Vec<&'static str> = vec!["deleted", "name"];
        assert(kf@ =~= seq!["deleted", "name"]);
        ToolResultCategory::SingleMutation { key_fields: kf, web_path: None }
    } else if str_eq(tool_name, "create_fact_declaration") {
        let kf: Vec<&'static str> = vec!["rkey", "predicate"];
        assert(kf@ =~= seq!["rkey", "predicate"]);
        ToolResultCategory::SingleMutation { key_fields: kf, web_path: Some("declarations") }
    } else if str_eq(tool_name, "update_fact_declaration") {
        let kf: Vec<&'static str> = vec!["rkey", "predicate"];
        assert(kf@ =~= seq!["rkey", "predicate"]);
        ToolResultCategory::SingleMutation { key_fields: kf, web_path: Some("declarations") }
    } else if str_eq(tool_name, "delete_fact_declaration") {
        let kf: Vec<&'static str> = vec!["deleted", "rkey"];
        assert(kf@ =~= seq!["deleted", "rkey"]);
        ToolResultCategory::SingleMutation { key_fields: kf, web_path: None }
    } else if str_eq(tool_name, "publish_blog_post") {
        let kf: Vec<&'static str> = vec!["rkey", "title"];
        assert(kf@ =~= seq!["rkey", "title"]);
        ToolResultCategory::SingleMutation { key_fields: kf, web_path: Some("blog") }
    } else if str_eq(tool_name, "update_blog_post") {
        let kf: Vec<&'static str> = vec!["rkey", "title"];
        assert(kf@ =~= seq!["rkey", "title"]);
        ToolResultCategory::SingleMutation { key_fields: kf, web_path: Some("blog") }
    } else if str_eq(tool_name, "create_wiki_entry") {
        let kf: Vec<&'static str> = vec!["rkey", "title", "slug"];
        assert(kf@ =~= seq!["rkey", "title", "slug"]);
        ToolResultCategory::SingleMutation { key_fields: kf, web_path: Some("wiki") }
    } else if str_eq(tool_name, "update_wiki_entry") {
        let kf: Vec<&'static str> = vec!["rkey", "title", "slug"];
        assert(kf@ =~= seq!["rkey", "title", "slug"]);
        ToolResultCategory::SingleMutation { key_fields: kf, web_path: Some("wiki") }
    } else if str_eq(tool_name, "delete_wiki_entry") {
        let kf: Vec<&'static str> = vec!["deleted", "rkey"];
        assert(kf@ =~= seq!["deleted", "rkey"]);
        ToolResultCategory::SingleMutation { key_fields: kf, web_path: None }
    } else if str_eq(tool_name, "create_wiki_link") {
        let kf: Vec<&'static str> = vec!["rkey", "source", "link_type"];
        assert(kf@ =~= seq!["rkey", "source", "link_type"]);
        ToolResultCategory::SingleMutation { key_fields: kf, web_path: None }
    } else if str_eq(tool_name, "delete_wiki_link") {
        let kf: Vec<&'static str> = vec!["deleted", "rkey"];
        assert(kf@ =~= seq!["deleted", "rkey"]);
        ToolResultCategory::SingleMutation { key_fields: kf, web_path: None }
    } else if str_eq(tool_name, "create_trigger") {
        let kf: Vec<&'static str> = vec!["rkey", "name"];
        assert(kf@ =~= seq!["rkey", "name"]);
        ToolResultCategory::SingleMutation { key_fields: kf, web_path: None }
    } else if str_eq(tool_name, "update_trigger") {
        let kf: Vec<&'static str> = vec!["rkey", "name"];
        assert(kf@ =~= seq!["rkey", "name"]);
        ToolResultCategory::SingleMutation { key_fields: kf, web_path: None }
    } else if str_eq(tool_name, "delete_trigger") {
        let kf: Vec<&'static str> = vec!["deleted", "rkey"];
        assert(kf@ =~= seq!["deleted", "rkey"]);
        ToolResultCategory::SingleMutation { key_fields: kf, web_path: None }
    } else if str_eq(tool_name, "list_triggers") {
        ToolResultCategory::List { count_field: "count", items_field: "triggers", sample_key: "name" }
    } else if str_eq(tool_name, "test_trigger") {
        ToolResultCategory::Query
    } else if str_eq(tool_name, "pds_put_record") {
        let kf: Vec<&'static str> = vec!["uri", "collection", "rkey"];
        assert(kf@ =~= seq!["uri", "collection", "rkey"]);
        ToolResultCategory::SingleMutation { key_fields: kf, web_path: None }
    } else if str_eq(tool_name, "pds_delete_record") {
        let kf: Vec<&'static str> = vec!["deleted", "collection", "rkey"];
        assert(kf@ =~= seq!["deleted", "collection", "rkey"]);
        ToolResultCategory::SingleMutation { key_fields: kf, web_path: None }
    } else if str_eq(tool_name, "post_to_bluesky") {
        let kf: Vec<&'static str> = vec!["uri"];
        assert(kf@ =~= seq!["uri"]);
        ToolResultCategory::SingleMutation { key_fields: kf, web_path: None }
    } else if str_eq(tool_name, "reply_to_bluesky") {
        let kf: Vec<&'static str> = vec!["uri"];
        assert(kf@ =~= seq!["uri"]);
        ToolResultCategory::SingleMutation { key_fields: kf, web_path: None }
    } else if str_eq(tool_name, "send_bluesky_dm") {
        let kf: Vec<&'static str> = vec!["message_id"];
        assert(kf@ =~= seq!["message_id"]);
        ToolResultCategory::SingleMutation { key_fields: kf, web_path: None }
    } else if str_eq(tool_name, "reply_to_dm") {
        let kf: Vec<&'static str> = vec!["message_id"];
        assert(kf@ =~= seq!["message_id"]);
        ToolResultCategory::SingleMutation { key_fields: kf, web_path: None }
    } else if str_eq(tool_name, "like_post") {
        let kf: Vec<&'static str> = vec!["like_uri"];
        assert(kf@ =~= seq!["like_uri"]);
        ToolResultCategory::SingleMutation { key_fields: kf, web_path: None }
    } else if str_eq(tool_name, "follow_user") {
        let kf: Vec<&'static str> = vec!["follow_uri"];
        assert(kf@ =~= seq!["follow_uri"]);
        ToolResultCategory::SingleMutation { key_fields: kf, web_path: None }
    } else if str_eq(tool_name, "mute_user") || str_eq(tool_name, "unmute_user") || str_eq(tool_name, "block_user") || str_eq(tool_name, "unblock_user") || str_eq(tool_name, "mute_thread") || str_eq(tool_name, "unmute_thread") {
        let kf: Vec<&'static str> = vec!["success"];
        assert(kf@ =~= seq!["success"]);
        ToolResultCategory::SingleMutation { key_fields: kf, web_path: None }
    } else if str_eq(tool_name, "delete_post") {
        let kf: Vec<&'static str> = vec!["deleted", "post_uri"];
        assert(kf@ =~= seq!["deleted", "post_uri"]);
        ToolResultCategory::SingleMutation { key_fields: kf, web_path: None }
    } else if str_eq(tool_name, "create_facts") {
        ToolResultCategory::BatchMutation { count_field: "created", sample_field: "results", sample_key: "predicate" }
    } else if str_eq(tool_name, "create_directives") {
        ToolResultCategory::BatchMutation { count_field: "created", sample_field: "results", sample_key: "kind" }
    } else if str_eq(tool_name, "create_rules") {
        ToolResultCategory::BatchMutation { count_field: "created", sample_field: "results", sample_key: "name" }
    } else if str_eq(tool_name, "create_fact_declarations") {
        ToolResultCategory::BatchMutation { count_field: "created", sample_field: "results", sample_key: "predicate" }
    } else if str_eq(tool_name, "list_notes") {
        ToolResultCategory::List { count_field: "count", items_field: "notes", sample_key: "title" }
    } else if str_eq(tool_name, "list_jobs") {
        ToolResultCategory::List { count_field: "count", items_field: "jobs", sample_key: "name" }
    } else if str_eq(tool_name, "list_directives") {
        ToolResultCategory::List { count_field: "count", items_field: "directives", sample_key: "kind" }
    } else if str_eq(tool_name, "list_rules") {
        ToolResultCategory::List { count_field: "count", items_field: "rules", sample_key: "name" }
    } else if str_eq(tool_name, "list_thoughts") {
        ToolResultCategory::List { count_field: "count", items_field: "thoughts", sample_key: "kind" }
    } else if str_eq(tool_name, "list_custom_tools") {
        ToolResultCategory::List { count_field: "count", items_field: "tools", sample_key: "name" }
    } else if str_eq(tool_name, "list_fact_declarations") {
        ToolResultCategory::List { count_field: "count", items_field: "declarations", sample_key: "predicate" }
    } else if str_eq(tool_name, "list_blog_posts") {
        ToolResultCategory::List { count_field: "count", items_field: "posts", sample_key: "title" }
    } else if str_eq(tool_name, "list_wiki_entries") {
        ToolResultCategory::List { count_field: "count", items_field: "entries", sample_key: "title" }
    } else if str_eq(tool_name, "list_wiki_links") {
        ToolResultCategory::List { count_field: "count", items_field: "links", sample_key: "link_type" }
    } else if str_eq(tool_name, "list_secrets") {
        ToolResultCategory::List { count_field: "count", items_field: "secrets", sample_key: "name" }
    } else if str_eq(tool_name, "pds_list_records") {
        ToolResultCategory::List { count_field: "count", items_field: "records", sample_key: "rkey" }
    } else if str_eq(tool_name, "pds_get_records") {
        ToolResultCategory::List { count_field: "count", items_field: "records", sample_key: "uri" }
    } else if str_eq(tool_name, "list_predicates") {
        ToolResultCategory::List { count_field: "total", items_field: "predicates", sample_key: "name" }
    } else if str_eq(tool_name, "list_validation_errors") {
        ToolResultCategory::List { count_field: "count", items_field: "errors", sample_key: "predicate" }
    } else if str_eq(tool_name, "query_facts") {
        ToolResultCategory::Query
    } else if str_eq(tool_name, "query_and_enrich") {
        ToolResultCategory::Query
    } else if str_eq(tool_name, "get_note") {
        let kf: Vec<&'static str> = vec!["rkey", "title"];
        assert(kf@ =~= seq!["rkey", "title"]);
        ToolResultCategory::Get { key_fields: kf, size_field: Some("content") }
    } else if str_eq(tool_name, "get_job") {
        let kf: Vec<&'static str> = vec!["rkey", "name", "schedule"];
        assert(kf@ =~= seq!["rkey", "name", "schedule"]);
        ToolResultCategory::Get { key_fields: kf, size_field: Some("instructions") }
    } else if str_eq(tool_name, "get_thought") {
        let kf: Vec<&'static str> = vec!["rkey", "kind"];
        assert(kf@ =~= seq!["rkey", "kind"]);
        ToolResultCategory::Get { key_fields: kf, size_field: Some("content") }
    } else if str_eq(tool_name, "get_custom_tool") {
        let kf: Vec<&'static str> = vec!["name", "version", "approved"];
        assert(kf@ =~= seq!["name", "version", "approved"]);
        ToolResultCategory::Get { key_fields: kf, size_field: Some("code") }
    } else if str_eq(tool_name, "get_blog_post") {
        let kf: Vec<&'static str> = vec!["rkey", "title"];
        assert(kf@ =~= seq!["rkey", "title"]);
        ToolResultCategory::Get { key_fields: kf, size_field: Some("content") }
    } else if str_eq(tool_name, "get_wiki_entry") || str_eq(tool_name, "get_wiki_entry_by_slug") {
        let kf: Vec<&'static str> = vec!["rkey", "title", "slug"];
        assert(kf@ =~= seq!["rkey", "title", "slug"]);
        ToolResultCategory::Get { key_fields: kf, size_field: Some("content") }
    } else if str_eq(tool_name, "pds_get_record") {
        let kf: Vec<&'static str> = vec!["collection", "rkey"];
        assert(kf@ =~= seq!["collection", "rkey"]);
        ToolResultCategory::Get { key_fields: kf, size_field: None }
    } else if str_eq(tool_name, "get_identity") {
        let kf: Vec<&'static str> = vec!["operator_did"];
        assert(kf@ =~= seq!["operator_did"]);
        ToolResultCategory::Get { key_fields: kf, size_field: None }
    } else if str_eq(tool_name, "get_timeline") {
        ToolResultCategory::BlueskyRead(BlueskyReadType::Timeline)
    } else if str_eq(tool_name, "get_notifications") {
        ToolResultCategory::BlueskyRead(BlueskyReadType::Notifications)
    } else if str_eq(tool_name, "search_posts") || str_eq(tool_name, "search_users") {
        ToolResultCategory::BlueskyRead(BlueskyReadType::Search)
    } else if str_eq(tool_name, "get_thread_context") {
        ToolResultCategory::BlueskyRead(BlueskyReadType::Thread)
    } else if str_eq(tool_name, "run_custom_tool") {
        ToolResultCategory::Custom
    } else if str_eq(tool_name, "record_thought") {
        ToolResultCategory::Excluded
    } else if str_eq(tool_name, "check_interruption") {
        let kf: Vec<&'static str> = vec!["interrupted", "reason"];
        assert(kf@ =~= seq!["interrupted", "reason"]);
        ToolResultCategory::Get { key_fields: kf, size_field: None }
    } else if str_eq(tool_name, "session_stats") {
        let kf: Vec<&'static str> = vec!["context_used_pct", "turn_count"];
        assert(kf@ =~= seq!["context_used_pct", "turn_count"]);
        ToolResultCategory::Get { key_fields: kf, size_field: None }
    } else if str_eq(tool_name, "set_active_context") {
        let kf: Vec<&'static str> = vec!["active_context", "status"];
        assert(kf@ =~= seq!["active_context", "status"]);
        ToolResultCategory::Get { key_fields: kf, size_field: None }
    } else {
        ToolResultCategory::Custom
    }
}

} // verus!
