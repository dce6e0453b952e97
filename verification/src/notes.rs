//! Notes: the checks on a new note, which notes a listing shows, and the
//! preview of a note's content.

use vstd::prelude::*;
use crate::text::{utf8_len, str_chars, str_eq, contains_ignoring_case, contains_ignore_case};
use crate::strset::string_views;
use crate::json::{JsonValue, lookup_member, member, member_text, member_str};
use crate::custom_tools::{string_list, collect_strings};
use crate::thought::lemma_utf8_len_push;

verus! {

/// The largest content of a note, in bytes.
pub const MAX_CONTENT_SIZE: usize = 51200;

/// How many notes a listing shows without a limit argument.
pub const DEFAULT_LIST_LIMIT: u64 = 20;

/// What a new note holds besides its timestamps.
#[derive(Debug)]
pub struct NoteDraft {
    pub title: String,
    pub content: String,
    pub category: Option<String>,
    pub tags: Vec<String>,
}

/// Why the arguments of a new note are refused, if they are.
pub open spec fn new_note_error(m: Seq<(String, JsonValue)>) -> Option<Seq<char>> {
    if member_text(m, "title"@) is None {
        Some("Missing required parameter: title"@)
    } else if member_text(m, "content"@) is None {
        Some("Missing required parameter: content"@)
    } else if utf8_len(member_text(m, "content"@)->0) > MAX_CONTENT_SIZE {
        Some("Content exceeds maximum size of 50KB"@)
    } else {
        None
    }
}

/// `n` holds the title, content, category and string tags.
pub open spec fn note_from(n: NoteDraft, m: Seq<(String, JsonValue)>) -> bool {
    &&& Some(n.title@) == member_text(m, "title"@)
    &&& Some(n.content@) == member_text(m, "content"@)
    &&& match n.category {
        Some(c) => member_text(m, "category"@) == Some(c@),
        None => member_text(m, "category"@) is None,
    }
    &&& string_views(n.tags@) == string_list(m, "tags"@)
}

/// Check the arguments of a new note and draft it.
pub fn note_draft(arguments: &Vec<(String, JsonValue)>) -> (r: Result<NoteDraft, String>)
    ensures
        match r {
            Ok(n) => new_note_error(arguments@) is None && note_from(n, arguments@),
            Err(e) => new_note_error(arguments@) == Some(e@),
        },
{
    let title = match member_str(arguments, "title") {
        Some(t) => t,
        None => {
            return Err(String::from_str("Missing required parameter: title"));
        },
    };
    let content = match member_str(arguments, "content") {
        Some(c) => c,
        None => {
            return Err(String::from_str("Missing required parameter: content"));
        },
    };
    let size = content.as_bytes().len();
    assert(size == utf8_len(content@));
    if size > MAX_CONTENT_SIZE {
        return Err(String::from_str("Content exceeds maximum size of 50KB"));
    }
    let category = match member_str(arguments, "category") {
        Some(c) => Some(String::from_str(c)),
        None => None,
    };
    let tags = match member(arguments, "tags") {
        Some(v) => match v.as_array() {
            Some(a) => collect_strings(a),
            None => {
                let e: Vec<String> = Vec::new();
                assert(string_views(e@) =~= Seq::<Seq<char>>::empty());
                e
            },
        },
        None => {
            let e: Vec<String> = Vec::new();
            assert(string_views(e@) =~= Seq::<Seq<char>>::empty());
            e
        },
    };
    Ok(NoteDraft { title: String::from_str(title), content: String::from_str(content), category, tags })
}

/// How many notes a listing shows: the limit argument, or 20.
pub open spec fn list_limit(m: Seq<(String, JsonValue)>) -> u64 {
    match lookup_member(m, "limit"@) {
        Some(v) => match v.u64_of() {
            Some(n) => n,
            None => DEFAULT_LIST_LIMIT,
        },
        None => DEFAULT_LIST_LIMIT,
    }
}

/// How many notes a listing shows.
pub fn note_list_limit(arguments: &Vec<(String, JsonValue)>) -> (r: u64)
    ensures
        r == list_limit(arguments@),
{
    match member(arguments, "limit") {
        Some(v) => match v.as_u64() {
            Some(n) => n,
            None => DEFAULT_LIST_LIMIT,
        },
        None => DEFAULT_LIST_LIMIT,
    }
}

/// A note is listed: its category is the one asked for, it has the tag
/// asked for, and its title or content contains the search text ignoring
/// case, for each filter given.
pub open spec fn note_listed(
    title: Seq<char>,
    content: Seq<char>,
    category: Option<Seq<char>>,
    tags: Seq<Seq<char>>,
    category_filter: Option<Seq<char>>,
    tag_filter: Option<Seq<char>>,
    search: Option<Seq<char>>,
) -> bool {
    &&& (category_filter matches Some(c) ==> category == Some(c))
    &&& (tag_filter matches Some(t) ==> tags.contains(t))
    &&& (search matches Some(s) ==> contains_ignoring_case(title, s) || contains_ignoring_case(content, s))
}

/// Whether a note is listed for the given filters.
pub fn note_is_listed(
    title: &str,
    content: &str,
    category: Option<&str>,
    tags: &Vec<String>,
    category_filter: Option<&str>,
    tag_filter: Option<&str>,
    search: Option<&str>,
) -> (r: bool)
    ensures
        r == note_listed(
            title@,
            content@,
            match category {
                Some(c) => Some(c@),
                None => None,
            },
            string_views(tags@),
            match category_filter {
                Some(c) => Some(c@),
                None => None,
            },
            match tag_filter {
                Some(t) => Some(t@),
                None => None,
            },
            match search {
                Some(s) => Some(s@),
                None => None,
            },
        ),
{
    match category_filter {
        Some(c) => {
            let same = match category {
                Some(k) => str_eq(k, c),
                None => false,
            };
            if !same {
                return false;
            }
        },
        None => {},
    }
    match tag_filter {
        Some(t) => {
            match crate::strset::position_in(tags, t) {
                Some(i) => {
                    assert(string_views(tags@)[i as int] == t@);
                },
                None => {
                    return false;
                },
            }
        },
        None => {},
    }
    match search {
        Some(s) => contains_ignore_case(title, s) || contains_ignore_case(content, s),
        None => true,
    }
}

/// The preview of a note's content.  Past 100 bytes the content is cut at
/// byte 100, which must fall between two characters.
pub fn note_preview(content: &str) -> (r: String)
    requires
        utf8_len(content@) > 100 ==> exists|k: int| 0 <= k <= content@.len() && utf8_len(content@.take(k)) == 100,
    ensures
        utf8_len(content@) <= 100 ==> r@ == content@,
        utf8_len(content@) > 100 ==> exists|k: int|
            0 <= k <= content@.len() && utf8_len(content@.take(k)) == 100 && r@ == content@.take(k) + "..."@,
{
    let n = content.as_bytes().len();
    assert(n == utf8_len(content@));
    if n <= 100 {
        return String::from_str(content);
    }
    let chars = str_chars(content);
    let mut k: usize = 0;
    let mut total: usize = 0;
    assert(content@.take(0) =~= Seq::<char>::empty());
    while total < 100 && k < chars.len()
        invariant
            k <= chars@.len(),
            chars@ == content@,
            total == utf8_len(content@.take(k as int)),
            total <= 100,
            exists|j: int| 0 <= j <= content@.len() && utf8_len(content@.take(j)) == 100,
            forall|j: int| 0 <= j <= k ==> utf8_len(#[trigger] content@.take(j)) <= total,
        decreases chars.len() - k,
    {
        let c = chars[k];
        let w: usize = if (c as u32) <= 0x7F {
            1
        } else if (c as u32) <= 0x7FF {
            2
        } else if (c as u32) <= 0xFFFF {
            3
        } else {
            4
        };
        proof {
            lemma_utf8_len_push(content@.take(k as int), c);
            assert(content@.take(k + 1) =~= content@.take(k as int).push(c));
            let j0 = choose|j: int| 0 <= j <= content@.len() && utf8_len(content@.take(j)) == 100;
            if total + w > 100 {
                // Byte 100 would fall inside this character: no prefix has 100 bytes.
                lemma_prefix_lengths(content@, k as int);
                if j0 <= k {
                    assert(utf8_len(content@.take(j0)) <= total);
                } else {
                    assert(utf8_len(content@.take(j0)) >= utf8_len(content@.take(k + 1)));
                }
            }
        }
        total = total + w;
        k = k + 1;
        proof {
            assert forall|j: int| 0 <= j <= k implies utf8_len(#[trigger] content@.take(j)) <= total by {
                if j == k {
                } else {
                    assert(utf8_len(content@.take(j)) <= total - w);
                }
            }
        }
    }
    proof {
        if total < 100 {
            assert(k == chars@.len());
            assert(content@.take(k as int) =~= content@);
        }
    }
    let mut out = String::from_str(content.substring_char(0, k));
    out.append("...");
    assert(content@.subrange(0, k as int) =~= content@.take(k as int));
    out
}

/// Longer prefixes have at least as many bytes.
proof fn lemma_prefix_lengths(s: Seq<char>, k: int)
    requires
        0 <= k < s.len(),
    ensures
        forall|j: int| k < j <= s.len() ==> utf8_len(#[trigger] s.take(j)) >= utf8_len(s.take(k + 1)),
    decreases s.len() - k,
{
    if k + 1 < s.len() {
        lemma_prefix_lengths(s, k + 1);
        lemma_utf8_len_push(s.take(k + 1), s[k + 1]);
        assert(s.take(k + 2) =~= s.take(k + 1).push(s[k + 1]));
    }
}

} // verus!
