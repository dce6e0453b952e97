//! Blog posts as WhiteWind entries: a new entry from tool arguments, the
//! changes of an update, the public URL of a post, and which posts a
//! listing shows.

use vstd::prelude::*;
use crate::text::{contains_ignoring_case, contains_ignore_case};
use crate::json::{JsonValue, member_text, member_str};
use crate::custom_tools::member_bool;

verus! {

/// Open Graph settings of a blog entry.
#[derive(Debug, Clone)]
pub struct BlogOgp {
    /// OGP title (the post's title when not set).
    pub title: Option<String>,
    /// OGP description.
    pub description: Option<String>,
}

/// A WhiteWind blog entry record.
#[derive(Debug, Clone)]
pub struct BlogEntry {
    pub title: String,
    /// Markdown content.
    pub content: String,
    /// When the post was created (RFC 3339).
    pub created_at: String,
    /// A draft is not visible.
    pub draft: bool,
    /// Theme, e.g. `github-light`.
    pub theme: Option<String>,
    pub ogp: Option<BlogOgp>,
}

/// The view of an optional string.
pub open spec fn opt_view(o: Option<String>) -> Option<Seq<char>> {
    match o {
        Some(s) => Some(s@),
        None => None,
    }
}

fn opt_string(o: Option<&str>) -> (r: Option<String>)
    ensures
        opt_view(r) == match o {
            Some(s) => Some(s@),
            None => None,
        },
{
    match o {
        Some(s) => Some(String::from_str(s)),
        None => None,
    }
}

fn bool_arg(m: &Vec<(String, JsonValue)>, key: &str) -> (r: Option<bool>)
    ensures
        r == member_bool(m@, key@),
{
    match crate::json::member(m, key) {
        Some(JsonValue::Bool(b)) => Some(*b),
        _ => None,
    }
}

/// Why the arguments of a new post are refused, if they are.
pub open spec fn new_post_error(m: Seq<(String, JsonValue)>) -> Option<Seq<char>> {
    if member_text(m, "title"@) is None {
        Some("Missing required parameter: title"@)
    } else if member_text(m, "content"@) is None {
        Some("Missing required parameter: content"@)
    } else {
        None
    }
}

/// `e` is the new entry the arguments describe, created at `created_at`:
/// a draft only when asked, and a description as its OGP description.
pub open spec fn new_entry_is(e: BlogEntry, m: Seq<(String, JsonValue)>, created_at: Seq<char>) -> bool {
    &&& Some(e.title@) == member_text(m, "title"@)
    &&& Some(e.content@) == member_text(m, "content"@)
    &&& e.created_at@ == created_at
    &&& e.draft == (member_bool(m, "draft"@) == Some(true))
    &&& opt_view(e.theme) == member_text(m, "theme"@)
    &&& match member_text(m, "description"@) {
        Some(d) => e.ogp matches Some(o) && o.title is None && opt_view(o.description) == Some(d),
        None => e.ogp is None,
    }
}

/// Check the arguments of a new blog post and make its entry.
pub fn new_blog_entry(arguments: &Vec<(String, JsonValue)>, created_at: String) -> (r: Result<BlogEntry, String>)
    ensures
        match r {
            Ok(e) => new_post_error(arguments@) is None && new_entry_is(e, arguments@, created_at@),
            Err(msg) => new_post_error(arguments@) == Some(msg@),
        },
{
    let title = match member_str(arguments, "title") {
        Some(t) => String::from_str(t),
        None => {
            return Err(String::from_str("Missing required parameter: title"));
        },
    };
    let content = match member_str(arguments, "content") {
        Some(c) => String::from_str(c),
        None => {
            return Err(String::from_str("Missing required parameter: content"));
        },
    };
    let draft = match bool_arg(arguments, "draft") {
        Some(b) => b,
        None => false,
    };
    let theme = opt_string(member_str(arguments, "theme"));
    let ogp = match member_str(arguments, "description") {
        Some(d) => Some(BlogOgp { title: None, description: Some(String::from_str(d)) }),
        None => None,
    };
    Ok(BlogEntry { title, content, created_at, draft, theme, ogp })
}

/// `after` is `before` with each field the arguments give replaced; a
/// description replaces the OGP description and keeps its title.
pub open spec fn updated_entry(before: BlogEntry, after: BlogEntry, m: Seq<(String, JsonValue)>) -> bool {
    &&& after.title@ == match member_text(m, "title"@) {
        Some(t) => t,
        None => before.title@,
    }
    &&& after.content@ == match member_text(m, "content"@) {
        Some(c) => c,
        None => before.content@,
    }
    &&& after.created_at == before.created_at
    &&& after.draft == match member_bool(m, "draft"@) {
        Some(b) => b,
        None => before.draft,
    }
    &&& opt_view(after.theme) == match member_text(m, "theme"@) {
        Some(t) => Some(t),
        None => opt_view(before.theme),
    }
    &&& match member_text(m, "description"@) {
        Some(d) => after.ogp matches Some(o) && opt_view(o.description) == Some(d) && opt_view(o.title) == match before.ogp {
            Some(bo) => opt_view(bo.title),
            None => None,
        },
        None => after.ogp == before.ogp,
    }
}

/// Apply the changes of an update to a blog entry.
pub fn apply_blog_update(entry: BlogEntry, arguments: &Vec<(String, JsonValue)>) -> (r: BlogEntry)
    ensures
        updated_entry(entry, r, arguments@),
{
    let mut e = entry;
    match member_str(arguments, "title") {
        Some(t) => {
            e.title = String::from_str(t);
        },
        None => {},
    }
    match member_str(arguments, "content") {
        Some(c) => {
            e.content = String::from_str(c);
        },
        None => {},
    }
    match bool_arg(arguments, "draft") {
        Some(b) => {
            e.draft = b;
        },
        None => {},
    }
    match member_str(arguments, "theme") {
        Some(t) => {
            e.theme = Some(String::from_str(t));
        },
        None => {},
    }
    match member_str(arguments, "description") {
        Some(d) => {
            let title = match &e.ogp {
                Some(o) => match &o.title {
                    Some(t) => Some(t.clone()),
                    None => None,
                },
                None => None,
            };
            e.ogp = Some(BlogOgp { title, description: Some(String::from_str(d)) });
        },
        None => {},
    }
    e
}

/// The public URL of a blog post.
pub open spec fn post_url(handle: Seq<char>, rkey: Seq<char>) -> Seq<char> {
    "https://greengale.app/"@ + handle + "/"@ + rkey
}

/// The public URL of a blog post on greengale.app.
pub fn blog_post_url(handle: &str, rkey: &str) -> (r: String)
    ensures
        r@ == post_url(handle@, rkey@),
{
    let mut url = String::from_str("https://greengale.app/");
    url.append(handle);
    url.append("/");
    url.append(rkey);
    url
}

// ---------------------------------------------------------------------------
// Listings
// ---------------------------------------------------------------------------

/// A post is listed: its draft status is the one asked for, if any, and its
/// title contains the search text, ignoring case, if one is given.
pub open spec fn post_listed(e: BlogEntry, draft: Option<bool>, search: Option<Seq<char>>) -> bool {
    &&& (draft matches Some(d) ==> e.draft == d)
    &&& (search matches Some(s) ==> contains_ignoring_case(e.title@, s))
}

/// Whether a post is listed for the given filters.
pub fn blog_post_listed(e: &BlogEntry, draft: Option<bool>, search: Option<&str>) -> (r: bool)
    ensures
        r == post_listed(
            *e,
            draft,
            match search {
                Some(s) => Some(s@),
                None => None,
            },
        ),
{
    match draft {
        Some(d) => if e.draft != d {
            return false;
        },
        None => {},
    }
    match search {
        Some(s) => contains_ignore_case(e.title.as_str(), s),
        None => true,
    }
}

/// The positions of the first `limit` items that are listed (all of them
/// without a limit).
pub open spec fn first_listed(listed: Seq<bool>, limit: Option<u64>) -> Seq<int> {
    let all = listed_positions(listed);
    match limit {
        Some(n) => if all.len() <= n {
            all
        } else {
            all.subrange(0, n as int)
        },
        None => all,
    }
}

/// The positions of the listed items, in order.
pub open spec fn listed_positions(listed: Seq<bool>) -> Seq<int>
    decreases listed.len(),
{
    if listed.len() == 0 {
        Seq::empty()
    } else {
        let rest = listed_positions(listed.drop_last());
        if listed.last() {
            rest.push(listed.len() - 1)
        } else {
            rest
        }
    }
}

/// The positions of the first `limit` listed items, in order.
pub fn take_listed(listed: &Vec<bool>, limit: Option<u64>) -> (r: Vec<usize>)
    ensures
        r@.map_values(|i: usize| i as int) == first_listed(listed@, limit),
{
    let mut out: Vec<usize> = Vec::new();
    let mut i: usize = 0;
    let ghost all = listed_positions(listed@);
    proof {
        lemma_listed_prefix(listed@, 0);
    }
    while i < listed.len()
        invariant
            i <= listed@.len(),
            all == listed_positions(listed@),
            listed_positions(listed@.subrange(0, i as int)) == all.subrange(
                0,
                listed_positions(listed@.subrange(0, i as int)).len() as int,
            ),
            listed_positions(listed@.subrange(0, i as int)).len() <= all.len(),
            match limit {
                Some(n) => out@.len() <= n && (out@.len() < n ==> out@.len() == listed_positions(
                    listed@.subrange(0, i as int),
                ).len()),
                None => out@.len() == listed_positions(listed@.subrange(0, i as int)).len(),
            },
            out@.len() <= listed_positions(listed@.subrange(0, i as int)).len(),
            out@.map_values(|j: usize| j as int) == all.subrange(0, out@.len() as int),
        ensures
            i <= listed@.len(),
            listed_positions(listed@.subrange(0, i as int)).len() <= all.len(),
            out@.map_values(|j: usize| j as int) == all.subrange(0, out@.len() as int),
            i == listed@.len() || (limit matches Some(n) && out@.len() == n),
            match limit {
                Some(n) => out@.len() <= n && (out@.len() < n ==> out@.len() == listed_positions(
                    listed@.subrange(0, i as int),
                ).len()),
                None => out@.len() == listed_positions(listed@.subrange(0, i as int)).len(),
            },
        decreases listed.len() - i,
    {
        if let Some(n) = limit {
            if out.len() as u64 >= n {
                break;
            }
        }
        let ghost before = out@.map_values(|j: usize| j as int);
        let ghost prev = listed_positions(listed@.subrange(0, i as int));
        proof {
            lemma_listed_prefix(listed@, i + 1);
            let next = listed@.subrange(0, i + 1);
            assert(next.drop_last() =~= listed@.subrange(0, i as int));
            assert(next.last() == listed@[i as int]);
        }
        if listed[i] {
            out.push(i);
            proof {
                let now = listed_positions(listed@.subrange(0, i + 1));
                assert(now == prev.push(i as int));
                assert(out@.map_values(|j: usize| j as int) =~= before.push(i as int));
                assert(all[prev.len() as int] == now[prev.len() as int]);
                assert(out@.map_values(|j: usize| j as int) =~= all.subrange(0, out@.len() as int));
            }
        }
        i = i + 1;
    }
    proof {
        lemma_listed_prefix(listed@, i as int);
        let upto = listed_positions(listed@.subrange(0, i as int));
        match limit {
            Some(n) => {
                if out@.len() < n {
                    assert(listed@.subrange(0, i as int) =~= listed@);
                }
            },
            None => {
                assert(listed@.subrange(0, i as int) =~= listed@);
            },
        }
        if out@.len() == all.len() {
            assert(all.subrange(0, out@.len() as int) =~= all);
        }
    }
    out
}

/// The listed positions of a prefix are a prefix of the listed positions.
proof fn lemma_listed_prefix(listed: Seq<bool>, i: int)
    requires
        0 <= i <= listed.len(),
    ensures
        listed_positions(listed.subrange(0, i)).len() <= listed_positions(listed).len(),
        listed_positions(listed.subrange(0, i)) == listed_positions(listed).subrange(
            0,
            listed_positions(listed.subrange(0, i)).len() as int,
        ),
    decreases listed.len() - i,
{
    if i < listed.len() {
        lemma_listed_prefix(listed, i + 1);
        let next = listed.subrange(0, i + 1);
        assert(next.drop_last() =~= listed.subrange(0, i));
        assert(next.last() == listed[i]);
    } else {
        assert(listed.subrange(0, i) =~= listed);
    }
}

} // verus!
