//! Directives from tool arguments: the checks on a new directive, on a
//! batch of them, and the changes of an update.
//!
//! A directive's confidence is a fraction; the caller sets it (clamped to
//! `0.0..=1.0`) from the argument, and the drafts here carry the rest.

use vstd::prelude::*;
use crate::text::{decimal, decimal_string, utf8_len, contains_ignoring_case, contains_ignore_case};
use crate::strset::{string_views, position_in};
use crate::summary::{take_chars, truncate_string};
use crate::records::{DirectiveKind, directive_kind_of, parse_directive_kind};
use crate::json::{
    JsonValue, lookup_member, member, member_text, member_str, short_strings, collect_short_strings,
    string_opt,
};

verus! {

/// The most records one batch may create.
pub const MAX_BATCH_SIZE: usize = 100;

/// What a directive holds besides its confidence and timestamps.
#[derive(Debug)]
pub struct DirectiveDraft {
    pub kind: DirectiveKind,
    pub content: String,
    pub summary: Option<String>,
    pub source: Option<String>,
    pub supersedes: Option<String>,
    pub tags: Vec<String>,
    pub priority: i32,
}

/// The kinds, as the error messages list them.
pub open spec fn kinds_list() -> Seq<char> {
    "value, interest, belief, guideline, self_concept, boundary, aspiration"@
}

/// A text cut to `max` characters, where there is one.
pub open spec fn opt_take(o: Option<Seq<char>>, max: nat) -> Option<Seq<char>> {
    match o {
        Some(t) => Some(take_chars(t, max)),
        None => None,
    }
}

/// The priority argument: an integer, cut to 32 bits; 0 without one.
pub open spec fn priority_of(m: Seq<(String, JsonValue)>) -> i32 {
    match lookup_member(m, "priority"@) {
        Some(v) => match v.i64_of() {
            Some(p) => p as i32,
            None => 0,
        },
        None => 0,
    }
}

/// `d` holds what the members give: the kind and content, the summary cut
/// to 256 characters, the source cut to 500, the supersedes key (where it
/// is taken), the first ten tags cut to 64, and the priority.
pub open spec fn draft_from(d: DirectiveDraft, m: Seq<(String, JsonValue)>, with_supersedes: bool) -> bool {
    &&& member_text(m, "kind"@) matches Some(k) && directive_kind_of(k) == Some(d.kind)
    &&& member_text(m, "content"@) == Some(d.content@)
    &&& string_opt(d.summary) == opt_take(member_text(m, "summary"@), 256)
    &&& string_opt(d.source) == opt_take(member_text(m, "source"@), 500)
    &&& string_opt(d.supersedes) == if with_supersedes {
        member_text(m, "supersedes"@)
    } else {
        None
    }
    &&& d.tags@.map_values(|s: String| s@) == short_strings(m, "tags"@, 10, 64)
    &&& d.priority == priority_of(m)
}

/// Why the arguments of a new directive are refused, if they are.
pub open spec fn new_directive_error(m: Seq<(String, JsonValue)>) -> Option<Seq<char>> {
    match member_text(m, "kind"@) {
        None => Some("Missing required parameter: kind"@),
        Some(k) => if directive_kind_of(k) is None {
            Some("Invalid kind '"@ + k + "'. Must be one of: "@ + kinds_list())
        } else {
            match member_text(m, "content"@) {
                None => Some("Missing required parameter: content"@),
                Some(c) => if utf8_len(c) > 2000 {
                    Some("Content too long: "@ + decimal(utf8_len(c)) + " chars (max 2000)"@)
                } else {
                    None
                },
            }
        },
    }
}

fn opt_truncated(o: Option<&str>, max: usize) -> (r: Option<String>)
    ensures
        string_opt(r) == opt_take(
            match o {
                Some(s) => Some(s@),
                None => None,
            },
            max as nat,
        ),
{
    match o {
        Some(s) => Some(truncate_string(s, max)),
        None => None,
    }
}

fn tags_of(m: &Vec<(String, JsonValue)>) -> (r: Vec<String>)
    ensures
        r@.map_values(|s: String| s@) == short_strings(m@, "tags"@, 10, 64),
{
    match member(m, "tags") {
        Some(v) => match v.as_array() {
            Some(a) => collect_short_strings(a, 10, 64),
            None => {
                let e: Vec<String> = Vec::new();
                assert(e@.map_values(|s: String| s@) =~= Seq::<Seq<char>>::empty());
                e
            },
        },
        None => {
            let e: Vec<String> = Vec::new();
            assert(e@.map_values(|s: String| s@) =~= Seq::<Seq<char>>::empty());
            e
        },
    }
}

fn priority_in(m: &Vec<(String, JsonValue)>) -> (r: i32)
    ensures
        r == priority_of(m@),
{
    match member(m, "priority") {
        Some(v) => match v.as_i64() {
            Some(p) => #[verifier::truncate] (p as i32),
            None => 0,
        },
        None => 0,
    }
}

fn fill_draft(m: &Vec<(String, JsonValue)>, kind: DirectiveKind, content: &str, with_supersedes: bool) -> (r: DirectiveDraft)
    requires
        member_text(m@, "kind"@) matches Some(k) && directive_kind_of(k) == Some(kind),
        member_text(m@, "content"@) == Some(content@),
    ensures
        draft_from(r, m@, with_supersedes),
{
    let supersedes = if with_supersedes {
        match member_str(m, "supersedes") {
            Some(s) => Some(String::from_str(s)),
            None => None,
        }
    } else {
        None
    };
    DirectiveDraft {
        kind,
        content: String::from_str(content),
        summary: opt_truncated(member_str(m, "summary"), 256),
        source: opt_truncated(member_str(m, "source"), 500),
        supersedes,
        tags: tags_of(m),
        priority: priority_in(m),
    }
}

fn invalid_kind_message(prefix: &str, lead: &str, k: &str) -> (r: String)
    ensures
        r@ == prefix@ + lead@ + k@ + "'. Must be one of: "@ + kinds_list(),
{
    let mut msg = String::from_str(prefix);
    msg.append(lead);
    msg.append(k);
    msg.append("'. Must be one of: ");
    msg.append("value, interest, belief, guideline, self_concept, boundary, aspiration");
    msg
}

fn too_long_message(prefix: &str, lead: &str, n: usize) -> (r: String)
    ensures
        r@ == prefix@ + lead@ + decimal(n as nat) + " chars (max 2000)"@,
{
    let mut msg = String::from_str(prefix);
    msg.append(lead);
    let d = decimal_string(n as u64);
    msg.append(d.as_str());
    msg.append(" chars (max 2000)");
    msg
}

/// Check the arguments of a new directive and draft it.
pub fn directive_draft(arguments: &Vec<(String, JsonValue)>) -> (r: Result<DirectiveDraft, String>)
    ensures
        match r {
            Ok(d) => new_directive_error(arguments@) is None && draft_from(d, arguments@, true),
            Err(e) => new_directive_error(arguments@) == Some(e@),
        },
{
    let k = match member_str(arguments, "kind") {
        Some(k) => k,
        None => {
            return Err(String::from_str("Missing required parameter: kind"));
        },
    };
    let kind = match parse_directive_kind(k) {
        Some(kind) => kind,
        None => {
            proof {
                reveal_strlit("");
            }
            assert(""@ + "Invalid kind '"@ =~= "Invalid kind '"@);
            return Err(invalid_kind_message("", "Invalid kind '", k));
        },
    };
    let content = match member_str(arguments, "content") {
        Some(c) => c,
        None => {
            return Err(String::from_str("Missing required parameter: content"));
        },
    };
    let n = content.as_bytes().len();
    assert(n == utf8_len(content@));
    if n > 2000 {
        proof {
            reveal_strlit("");
        }
        assert(""@ + "Content too long: "@ =~= "Content too long: "@);
        return Err(too_long_message("", "Content too long: ", n));
    }
    Ok(fill_draft(arguments, kind, content, true))
}

// ---------------------------------------------------------------------------
// Batches
// ---------------------------------------------------------------------------

/// The `directives[i]: ` prefix of the messages about item `i`.
pub open spec fn item_prefix(i: nat) -> Seq<char> {
    "directives["@ + decimal(i) + "]: "@
}

/// Why item `i` of a batch is refused, if it is.
pub open spec fn batch_item_error(item: JsonValue, i: nat) -> Option<Seq<char>> {
    let p = item_prefix(i);
    match item {
        JsonValue::Object(m) => match member_text(m@, "kind"@) {
            None => Some(p + "missing kind"@),
            Some(k) => if directive_kind_of(k) is None {
                Some(p + "invalid kind '"@ + k + "'. Must be one of: "@ + kinds_list())
            } else {
                match member_text(m@, "content"@) {
                    None => Some(p + "missing content"@),
                    Some(c) => if utf8_len(c) > 2000 {
                        Some(p + "content too long: "@ + decimal(utf8_len(c)) + " chars (max 2000)"@)
                    } else {
                        None
                    },
                }
            },
        },
        _ => Some(p + "expected object"@),
    }
}

/// The items of the `directives` argument, when it is an array.
pub open spec fn batch_items(m: Seq<(String, JsonValue)>) -> Option<Seq<JsonValue>> {
    match lookup_member(m, "directives"@) {
        Some(v) => v.items(),
        None => None,
    }
}

/// Why a batch is refused as a whole, if it is: no array, an empty one,
/// or more than `MAX_BATCH_SIZE` items.
pub open spec fn batch_error(m: Seq<(String, JsonValue)>) -> Option<Seq<char>> {
    match batch_items(m) {
        None => Some("Missing required parameter: directives"@),
        Some(items) => if items.len() == 0 {
            Some("directives array cannot be empty"@)
        } else if items.len() > MAX_BATCH_SIZE {
            Some("Batch size "@ + decimal(items.len()) + " exceeds maximum of 100"@)
        } else {
            None
        },
    }
}

/// Item `i` is taken, as `d`.
pub open spec fn batch_item_taken(item: JsonValue, i: int, d: DirectiveDraft) -> bool {
    &&& batch_item_error(item, i as nat) is None
    &&& item matches JsonValue::Object(m) && draft_from(d, m@, false)
}

fn batch_item(item: &JsonValue, i: usize) -> (r: Result<DirectiveDraft, String>)
    ensures
        match r {
            Ok(d) => batch_item_taken(*item, i as int, d),
            Err(e) => batch_item_error(*item, i as nat) == Some(e@),
        },
{
    let prefix = {
        let mut p = String::from_str("directives[");
        let d = decimal_string(i as u64);
        p.append(d.as_str());
        p.append("]: ");
        p
    };
    match item {
        JsonValue::Object(m) => {
            let k = match member_str(m, "kind") {
                Some(k) => k,
                None => {
                    let mut e = prefix;
                    e.append("missing kind");
                    return Err(e);
                },
            };
            let kind = match parse_directive_kind(k) {
                Some(kind) => kind,
                None => {
                    return Err(invalid_kind_message(prefix.as_str(), "invalid kind '", k));
                },
            };
            let content = match member_str(m, "content") {
                Some(c) => c,
                None => {
                    let mut e = prefix;
                    e.append("missing content");
                    return Err(e);
                },
            };
            let n = content.as_bytes().len();
            assert(n == utf8_len(content@));
            if n > 2000 {
                return Err(too_long_message(prefix.as_str(), "content too long: ", n));
            }
            Ok(fill_draft(m, kind, content, false))
        },
        _ => {
            let mut e = prefix;
            e.append("expected object");
            Err(e)
        },
    }
}

/// Check the arguments of a batch of new directives and draft them all;
/// the first refused item refuses the batch.
pub fn directive_batch(arguments: &Vec<(String, JsonValue)>) -> (r: Result<Vec<DirectiveDraft>, String>)
    ensures
        match r {
            Ok(v) => batch_error(arguments@) is None && v@.len() == batch_items(arguments@)->0.len()
                && forall|i: int|
                0 <= i < v@.len() ==> batch_item_taken(batch_items(arguments@)->0[i], i, #[trigger] v@[i]),
            Err(e) => batch_error(arguments@) == Some(e@) || (batch_error(arguments@) is None && exists|i: int|
                0 <= i < batch_items(arguments@)->0.len() && (forall|j: int|
                    0 <= j < i ==> (#[trigger] batch_item_error(batch_items(arguments@)->0[j], j as nat))
                        is None) && batch_item_error(batch_items(arguments@)->0[i], i as nat) == Some(e@)),
        },
{
    let items = match member(arguments, "directives") {
        Some(v) => match v.as_array() {
            Some(a) => a,
            None => {
                return Err(String::from_str("Missing required parameter: directives"));
            },
        },
        None => {
            return Err(String::from_str("Missing required parameter: directives"));
        },
    };
    let ghost list = batch_items(arguments@)->0;
    assert(list == items@);
    if items.len() == 0 {
        return Err(String::from_str("directives array cannot be empty"));
    }
    if items.len() > MAX_BATCH_SIZE {
        let mut msg = String::from_str("Batch size ");
        let d = decimal_string(items.len() as u64);
        msg.append(d.as_str());
        msg.append(" exceeds maximum of 100");
        return Err(msg);
    }
    let mut out: Vec<DirectiveDraft> = Vec::new();
    let mut i: usize = 0;
    while i < items.len()
        invariant
            i <= items@.len(),
            list == items@,
            list == batch_items(arguments@)->0,
            batch_error(arguments@) is None,
            out@.len() == i,
            forall|j: int| 0 <= j < i ==> batch_item_taken(list[j], j, #[trigger] out@[j]),
        decreases items.len() - i,
    {
        match batch_item(&items[i], i) {
            Ok(d) => {
                let ghost before = out@;
                out.push(d);
                proof {
                    assert forall|j: int| 0 <= j < i + 1 implies batch_item_taken(list[j], j, #[trigger] out@[j]) by {
                        if j < i {
                            assert(out@[j] == before[j]);
                        }
                    }
                }
            },
            Err(e) => {
                proof {
                    assert forall|j: int| 0 <= j < i implies (#[trigger] batch_item_error(list[j], j as nat)) is None by {
                        assert(batch_item_taken(list[j], j, out@[j]));
                    }
                }
                return Err(e);
            },
        }
        i = i + 1;
    }
    Ok(out)
}

// ---------------------------------------------------------------------------
// Updates
// ---------------------------------------------------------------------------

/// The argument `confidence` is a number.
pub open spec fn confidence_given(m: Seq<(String, JsonValue)>) -> bool {
    lookup_member(m, "confidence"@) matches Some(JsonValue::Number(_))
}

/// The names of the fields an update changes, in order: content,
/// summary, confidence, source, tags, priority, each where its argument
/// has the right type.
pub open spec fn update_changes(m: Seq<(String, JsonValue)>) -> Seq<Seq<char>> {
    let c = if member_text(m, "content"@) is Some { seq!["content"@] } else { Seq::empty() };
    let s = if member_text(m, "summary"@) is Some { c.push("summary"@) } else { c };
    let f = if confidence_given(m) { s.push("confidence"@) } else { s };
    let o = if member_text(m, "source"@) is Some { f.push("source"@) } else { f };
    let t = if lookup_member(m, "tags"@) matches Some(v) && v.items() is Some { o.push("tags"@) } else { o };
    if lookup_member(m, "priority"@) matches Some(v) && v.i64_of() is Some { t.push("priority"@) } else { t }
}

/// Why an update is refused, if it is: content too long, or nothing to change.
pub open spec fn update_error(m: Seq<(String, JsonValue)>) -> Option<Seq<char>> {
    match member_text(m, "content"@) {
        Some(c) if utf8_len(c) > 2000 => Some("Content too long: "@ + decimal(utf8_len(c)) + " chars (max 2000)"@),
        _ => if update_changes(m).len() == 0 {
            Some("No changes specified"@)
        } else {
            None
        },
    }
}

/// `after` is `before` with the fields the arguments give replaced; the
/// kind and the supersedes key stay.
pub open spec fn updated_draft(before: DirectiveDraft, after: DirectiveDraft, m: Seq<(String, JsonValue)>) -> bool {
    &&& after.kind == before.kind
    &&& after.supersedes == before.supersedes
    &&& after.content@ == match member_text(m, "content"@) {
        Some(c) => c,
        None => before.content@,
    }
    &&& string_opt(after.summary) == match member_text(m, "summary"@) {
        Some(t) => Some(take_chars(t, 256)),
        None => string_opt(before.summary),
    }
    &&& string_opt(after.source) == match member_text(m, "source"@) {
        Some(t) => Some(take_chars(t, 500)),
        None => string_opt(before.source),
    }
    &&& after.tags@.map_values(|s: String| s@) == if lookup_member(m, "tags"@) matches Some(v) && v.items() is Some {
        short_strings(m, "tags"@, 10, 64)
    } else {
        before.tags@.map_values(|s: String| s@)
    }
    &&& after.priority == if lookup_member(m, "priority"@) matches Some(v) && v.i64_of() is Some {
        priority_of(m)
    } else {
        before.priority
    }
}

/// Apply the changes of an update to a directive: the changed directive and
/// the names of the changed fields, or why the update is refused.
pub fn directive_update(current: DirectiveDraft, arguments: &Vec<(String, JsonValue)>) -> (r: Result<(DirectiveDraft, Vec<&'static str>), String>)
    ensures
        match r {
            Ok((d, changes)) => update_error(arguments@) is None && updated_draft(current, d, arguments@)
                && changes@.map_values(|c: &str| c@) == update_changes(arguments@),
            Err(e) => update_error(arguments@) == Some(e@),
        },
{
    let mut d = current;
    let mut changes: Vec<&'static str> = Vec::new();
    let ghost m = arguments@;
    match member_str(arguments, "content") {
        Some(c) => {
            let n = c.as_bytes().len();
            assert(n == utf8_len(c@));
            if n > 2000 {
                proof {
                    reveal_strlit("");
                }
                assert(""@ + "Content too long: "@ =~= "Content too long: "@);
                return Err(too_long_message("", "Content too long: ", n));
            }
            d.content = String::from_str(c);
            changes.push("content");
        },
        None => {},
    }
    let ghost c0 = changes@.map_values(|c: &str| c@);
    assert(c0 =~= if member_text(m, "content"@) is Some { seq!["content"@] } else { Seq::<Seq<char>>::empty() });
    match member_str(arguments, "summary") {
        Some(s) => {
            d.summary = Some(truncate_string(s, 256));
            changes.push("summary");
        },
        None => {},
    }
    let ghost c1 = changes@.map_values(|c: &str| c@);
    assert(c1 =~= if member_text(m, "summary"@) is Some { c0.push("summary"@) } else { c0 });
    match member(arguments, "confidence") {
        Some(JsonValue::Number(_)) => {
            changes.push("confidence");
        },
        _ => {},
    }
    let ghost c2 = changes@.map_values(|c: &str| c@);
    assert(c2 =~= if confidence_given(m) { c1.push("confidence"@) } else { c1 });
    match member_str(arguments, "source") {
        Some(s) => {
            d.source = Some(truncate_string(s, 500));
            changes.push("source");
        },
        None => {},
    }
    let ghost c3 = changes@.map_values(|c: &str| c@);
    assert(c3 =~= if member_text(m, "source"@) is Some { c2.push("source"@) } else { c2 });
    match member(arguments, "tags") {
        Some(v) => match v.as_array() {
            Some(a) => {
                d.tags = collect_short_strings(a, 10, 64);
                changes.push("tags");
            },
            None => {},
        },
        None => {},
    }
    let ghost c4 = changes@.map_values(|c: &str| c@);
    assert(c4 =~= if lookup_member(m, "tags"@) matches Some(v) && v.items() is Some { c3.push("tags"@) } else { c3 });
    match member(arguments, "priority") {
        Some(v) => match v.as_i64() {
            Some(p) => {
                d.priority = #[verifier::truncate] (p as i32);
                changes.push("priority");
            },
            None => {},
        },
        None => {},
    }
    assert(changes@.map_values(|c: &str| c@) =~= update_changes(m));
    if changes.len() == 0 {
        return Err(String::from_str("No changes specified"));
    }
    Ok((d, changes))
}

// ---------------------------------------------------------------------------
// Listings
// ---------------------------------------------------------------------------

/// A directive is listed: it is active unless inactive ones are asked for,
/// it has the kind asked for, if any, its content contains the search
/// text, ignoring case, if any, and it carries the tag asked for, if any.
pub open spec fn directive_listed(
    d: DirectiveDraft,
    active: bool,
    include_inactive: bool,
    kind: Option<DirectiveKind>,
    search: Option<Seq<char>>,
    tag: Option<Seq<char>>,
) -> bool {
    &&& (include_inactive || active)
    &&& (kind matches Some(k) ==> d.kind == k)
    &&& (search matches Some(t) ==> contains_ignoring_case(d.content@, t))
    &&& (tag matches Some(t) ==> string_views(d.tags@).contains(t))
}

/// Whether a directive (`active` or not) is listed for the given filters.
pub fn directive_is_listed(
    d: &DirectiveDraft,
    active: bool,
    include_inactive: bool,
    kind: Option<DirectiveKind>,
    search: Option<&str>,
    tag: Option<&str>,
) -> (r: bool)
    ensures
        r == directive_listed(
            *d,
            active,
            include_inactive,
            kind,
            match search {
                Some(t) => Some(t@),
                None => None,
            },
            match tag {
                Some(t) => Some(t@),
                None => None,
            },
        ),
{
    if !include_inactive && !active {
        return false;
    }
    match kind {
        Some(k) => if d.kind != k {
            return false;
        },
        None => {},
    }
    match search {
        Some(t) => if !contains_ignore_case(d.content.as_str(), t) {
            return false;
        },
        None => {},
    }
    match tag {
        Some(t) => position_in(&d.tags, t).is_some(),
        None => true,
    }
}

} // verus!
