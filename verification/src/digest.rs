//! One-line digests of tool results for the thought stream, by result
//! category: key fields of a mutation, counts and samples of lists and
//! batches, the shape of query results, Bluesky reads and custom tools.

use vstd::prelude::*;
use crate::text::{decimal, decimal_string, join_with, join_strings, utf8_len};
use crate::summary::{
    truncated_with_ellipsis, truncate_for_summary, web_link, make_web_link, BlueskyReadType,
    ToolResultCategory, CategoryModel, tool_category_spec, get_tool_category,
};
use crate::protocol::{CallToolResult, ToolContent};
use crate::json::{
    JsonValue, first_n, extracted, extract_string, string_opt, string_text, json_text, json_string, bool_text,
};

verus! {

// ---------------------------------------------------------------------------
// Shared pieces
// ---------------------------------------------------------------------------

/// `name=value` for each of `fields` that the result holds as text, the
/// value cut to `max` characters.
pub open spec fn field_parts(result: JsonValue, fields: Seq<&str>, max: usize) -> Seq<Seq<char>>
    decreases fields.len(),
{
    if fields.len() == 0 {
        Seq::empty()
    } else {
        let rest = field_parts(result, fields.drop_last(), max);
        let f = fields.last();
        match extracted(result, f@, Some(max)) {
            Some(v) => rest.push(f@ + "="@ + v),
            None => rest,
        }
    }
}

fn push_field_parts(result: &JsonValue, fields: &[&str], max: usize, parts: &mut Vec<String>)
    ensures
        final(parts)@.map_values(|p: String| p@) == old(parts)@.map_values(|p: String| p@) + field_parts(
            *result,
            fields@,
            max,
        ),
{
    let ghost start = parts@.map_values(|p: String| p@);
    let mut i: usize = 0;
    while i < fields.len()
        invariant
            i <= fields@.len(),
            parts@.map_values(|p: String| p@) == start + field_parts(*result, fields@.subrange(0, i as int), max),
        decreases fields.len() - i,
    {
        let ghost before = parts@.map_values(|p: String| p@);
        let f = fields[i];
        match extract_string(result, f, Some(max)) {
            Some(v) => {
                let mut t = String::from_str(f);
                t.append("=");
                t.append(v.as_str());
                parts.push(t);
                assert(parts@.map_values(|p: String| p@) =~= before.push(t@));
            },
            None => {},
        }
        proof {
            let next = fields@.subrange(0, i + 1);
            assert(next.drop_last() =~= fields@.subrange(0, i as int));
            assert(next.last() == fields@[i as int]);
        }
        i = i + 1;
    }
    assert(fields@.subrange(0, fields@.len() as int) =~= fields@);
}

/// The unsigned integer in member `field`, or 0.
pub open spec fn count_of(result: JsonValue, field: Seq<char>) -> nat {
    match result.field(field) {
        Some(v) => match v.u64_of() {
            Some(n) => n as nat,
            None => 0,
        },
        None => 0,
    }
}

fn count_in(result: &JsonValue, field: &str) -> (r: u64)
    ensures
        r as nat == count_of(*result, field@),
{
    match result.get(field) {
        Some(v) => match v.as_u64() {
            Some(n) => n,
            None => 0,
        },
        None => 0,
    }
}

/// The elements of the array in member `field`; none when it is absent or
/// not an array.
pub open spec fn array_field(result: JsonValue, field: Seq<char>) -> Seq<JsonValue> {
    match result.field(field) {
        Some(v) => match v.items() {
            Some(a) => a,
            None => Seq::empty(),
        },
        None => Seq::empty(),
    }
}

/// The texts of member `key` of each item that holds one, cut to `max`.
pub open spec fn key_samples(items: Seq<JsonValue>, key: Seq<char>, max: usize) -> Seq<Seq<char>>
    decreases items.len(),
{
    if items.len() == 0 {
        Seq::empty()
    } else {
        let rest = key_samples(items.drop_last(), key, max);
        match extracted(items.last(), key, Some(max)) {
            Some(t) => rest.push(t),
            None => rest,
        }
    }
}

/// The samples of member `key` from the first `n` elements of the array in
/// member `field` of the result.
fn samples(result: &JsonValue, field: &str, key: &str, n: usize, max: usize) -> (r: Vec<String>)
    ensures
        r@.map_values(|p: String| p@) == key_samples(
            first_n(array_field(*result, field@), n as nat),
            key@,
            max,
        ),
{
    let mut out: Vec<String> = Vec::new();
    match result.get(field) {
        None => {
            return out;
        },
        Some(v) => match v.as_array() {
            None => {
                assert(out@.map_values(|p: String| p@) =~= Seq::<Seq<char>>::empty());
                return out;
            },
            Some(arr) => {
                let m: usize = if arr.len() <= n { arr.len() } else { n };
                let ghost items = first_n(arr@, n as nat);
                assert(items =~= arr@.subrange(0, m as int));
                let mut i: usize = 0;
                while i < m
                    invariant
                        i <= m <= arr@.len(),
                        items == arr@.subrange(0, m as int),
                        out@.map_values(|p: String| p@) == key_samples(arr@.subrange(0, i as int), key@, max),
                    decreases m - i,
                {
                    let ghost before = out@.map_values(|p: String| p@);
                    match extract_string(&arr[i], key, Some(max)) {
                        Some(t) => {
                            out.push(t);
                            assert(out@.map_values(|p: String| p@) =~= before.push(t@));
                        },
                        None => {},
                    }
                    proof {
                        let next = arr@.subrange(0, i + 1);
                        assert(next.drop_last() =~= arr@.subrange(0, i as int));
                        assert(next.last() == arr@[i as int]);
                    }
                    i = i + 1;
                }
                out
            },
        },
    }
}

// ---------------------------------------------------------------------------
// Mutations and lists
// ---------------------------------------------------------------------------

/// The web link of a mutation's record, when a web path and a web UI base
/// are given and the result names a record key.
pub open spec fn record_link(result: JsonValue, web_path: Option<&str>, web_base: Option<&str>) -> Option<Seq<char>> {
    match (web_path, web_base, extracted(result, "rkey"@, None)) {
        (Some(p), Some(b), Some(k)) => Some(web_link(b@, p@, k)),
        _ => None,
    }
}

/// The digest of a single mutation: its key fields (values cut to 50
/// characters), then a line with the record's web link where there is one.
pub open spec fn single_mutation_digest(
    result: JsonValue,
    key_fields: Seq<&str>,
    web_path: Option<&str>,
    web_base: Option<&str>,
) -> Seq<char> {
    join_with(field_parts(result, key_fields, 50), ", "@) + match record_link(result, web_path, web_base) {
        Some(l) => "\nView: "@ + l,
        None => Seq::empty(),
    }
}

/// The web link of a mutation's record.
pub fn record_link_of(result: &JsonValue, web_path: Option<&str>, web_base: Option<&str>) -> (r: Option<String>)
    ensures
        string_opt(r) == record_link(*result, web_path, web_base),
{
    match web_path {
        None => None,
        Some(p) => match extract_string(result, "rkey", None) {
            None => None,
            Some(k) => make_web_link(web_base, p, k.as_str()),
        },
    }
}

/// Summarize a single mutation result.
pub fn summarize_single_mutation(
    result: &JsonValue,
    key_fields: &[&str],
    web_path: Option<&str>,
    web_base: Option<&str>,
) -> (r: String)
    ensures
        r@ == single_mutation_digest(*result, key_fields@, web_path, web_base),
{
    let mut parts: Vec<String> = Vec::new();
    push_field_parts(result, key_fields, 50, &mut parts);
    assert(parts@.map_values(|p: String| p@) =~= field_parts(*result, key_fields@, 50));
    let mut summary = join_strings(&parts, ", ");
    match record_link_of(result, web_path, web_base) {
        Some(link) => {
            summary.append("\nView: ");
            summary.append(link.as_str());
        },
        None => {},
    }
    summary
}

/// The digest of a batch mutation: the count, and up to three samples of
/// `sample_key` (cut to 30 characters) from the `sample_field` array.
pub open spec fn batch_digest(
    result: JsonValue,
    count_field: Seq<char>,
    sample_field: Seq<char>,
    sample_key: Seq<char>,
) -> Seq<char> {
    let count = count_field + "="@ + decimal(count_of(result, count_field));
    let sample = key_samples(first_n(array_field(result, sample_field), 3), sample_key, 30);
    if sample.len() == 0 {
        count
    } else {
        count + ", "@ + sample_key + "=["@ + join_with(sample, ", "@) + "]"@
    }
}

/// Summarize a batch mutation result.
pub fn summarize_batch_mutation(result: &JsonValue, count_field: &str, sample_field: &str, sample_key: &str) -> (r: String)
    ensures
        r@ == batch_digest(*result, count_field@, sample_field@, sample_key@),
{
    let count = count_in(result, count_field);
    let sample = samples(result, sample_field, sample_key, 3, 30);
    let mut out = String::from_str(count_field);
    out.append("=");
    let c = decimal_string(count);
    out.append(c.as_str());
    if sample.len() > 0 {
        out.append(", ");
        out.append(sample_key);
        out.append("=[");
        let body = join_strings(&sample, ", ");
        out.append(body.as_str());
        out.append("]");
    }
    out
}

/// Each text in double quotes.
pub open spec fn quoted(texts: Seq<Seq<char>>) -> Seq<Seq<char>> {
    texts.map_values(|t: Seq<char>| "\""@ + t + "\""@)
}

/// The digest of a list: the count, and up to three quoted samples of
/// `sample_key` (cut to 30 characters) from the `items_field` array.
pub open spec fn list_digest(
    result: JsonValue,
    count_field: Seq<char>,
    items_field: Seq<char>,
    sample_key: Seq<char>,
) -> Seq<char> {
    let count = "count="@ + decimal(count_of(result, count_field));
    let sample = quoted(key_samples(first_n(array_field(result, items_field), 3), sample_key, 30));
    if sample.len() == 0 {
        count
    } else {
        count + ", sample=["@ + join_with(sample, ", "@) + "]"@
    }
}

/// Summarize a list result.
pub fn summarize_list(result: &JsonValue, count_field: &str, items_field: &str, sample_key: &str) -> (r: String)
    ensures
        r@ == list_digest(*result, count_field@, items_field@, sample_key@),
{
    let count = count_in(result, count_field);
    let sample = samples(result, items_field, sample_key, 3, 30);
    let ghost sv = sample@.map_values(|p: String| p@);
    let mut q: Vec<String> = Vec::new();
    let mut i: usize = 0;
    while i < sample.len()
        invariant
            i <= sample@.len(),
            sv == sample@.map_values(|p: String| p@),
            q@.map_values(|p: String| p@) == quoted(sv.subrange(0, i as int)),
        decreases sample.len() - i,
    {
        let mut t = String::from_str("\"");
        t.append(sample[i].as_str());
        t.append("\"");
        let ghost before = q@.map_values(|p: String| p@);
        q.push(t);
        proof {
            assert(sv[i as int] == sample@[i as int]@);
            assert(t@ == "\""@ + sv[i as int] + "\""@);
            assert(q@.map_values(|p: String| p@) =~= before.push(t@));
            assert(quoted(sv.subrange(0, i + 1)) =~= quoted(sv.subrange(0, i as int)).push(t@));
        }
        i = i + 1;
    }
    assert(sv.subrange(0, sv.len() as int) =~= sv);
    let mut out = String::from_str("count=");
    let c = decimal_string(count);
    out.append(c.as_str());
    if q.len() > 0 {
        out.append(", sample=[");
        let body = join_strings(&q, ", ");
        out.append(body.as_str());
        out.append("]");
    }
    out
}

// ---------------------------------------------------------------------------
// Queries and gets
// ---------------------------------------------------------------------------

/// A cell of a result tuple: a string cut to 20 characters, anything else
/// as compact JSON.
pub open spec fn cell_text(v: JsonValue) -> Seq<char> {
    match v {
        JsonValue::String(s) => truncated_with_ellipsis(s@, 20),
        _ => json_text(v),
    }
}

/// The tuples among the results, each in parentheses.
pub open spec fn tuple_texts(results: Seq<JsonValue>) -> Seq<Seq<char>>
    decreases results.len(),
{
    if results.len() == 0 {
        Seq::empty()
    } else {
        let rest = tuple_texts(results.drop_last());
        match results.last().items() {
            Some(cells) => rest.push(
                "("@ + join_with(cells.map_values(|c: JsonValue| cell_text(c)), ", "@) + ")"@,
            ),
            None => rest,
        }
    }
}

/// The parts of a query digest: the query (cut to 60 characters), the
/// number of results and the first two result tuples.
pub open spec fn query_parts(result: JsonValue) -> Seq<Seq<char>> {
    let q = match extracted(result, "query"@, Some(60)) {
        Some(q) => seq!["query=\""@ + q + "\""@],
        None => Seq::empty(),
    };
    match result.field("results"@) {
        Some(v) => match v.items() {
            Some(rs) => {
                let sample = tuple_texts(first_n(rs, 2));
                let with_count = q.push("count="@ + decimal(rs.len()));
                if sample.len() == 0 {
                    with_count
                } else {
                    with_count.push("sample=["@ + join_with(sample, ", "@) + "]"@)
                }
            },
            None => q,
        },
        None => q,
    }
}

fn cell_string(v: &JsonValue) -> (r: String)
    ensures
        r@ == cell_text(*v),
{
    match v {
        JsonValue::String(s) => truncate_for_summary(s.as_str(), 20),
        _ => json_string(v),
    }
}

fn tuple_string(cells: &Vec<JsonValue>) -> (r: String)
    ensures
        r@ == "("@ + join_with(cells@.map_values(|c: JsonValue| cell_text(c)), ", "@) + ")"@,
{
    let ghost cv = cells@.map_values(|c: JsonValue| cell_text(c));
    let mut parts: Vec<String> = Vec::new();
    let mut i: usize = 0;
    while i < cells.len()
        invariant
            i <= cells@.len(),
            cv == cells@.map_values(|c: JsonValue| cell_text(c)),
            parts@.map_values(|p: String| p@) == cv.subrange(0, i as int),
        decreases cells.len() - i,
    {
        let t = cell_string(&cells[i]);
        let ghost before = parts@.map_values(|p: String| p@);
        parts.push(t);
        assert(cv[i as int] == cell_text(cells@[i as int]));
        assert(parts@.map_values(|p: String| p@) =~= before.push(t@));
        assert(parts@.map_values(|p: String| p@) =~= cv.subrange(0, i + 1));
        i = i + 1;
    }
    assert(cv.subrange(0, cv.len() as int) =~= cv);
    let body = join_strings(&parts, ", ");
    let mut out = String::from_str("(");
    out.append(body.as_str());
    out.append(")");
    out
}

/// Summarize a query result.
pub fn summarize_query(result: &JsonValue) -> (r: String)
    ensures
        r@ == join_with(query_parts(*result), ", "@),
{
    let mut parts: Vec<String> = Vec::new();
    match extract_string(result, "query", Some(60)) {
        Some(q) => {
            let mut t = String::from_str("query=\"");
            t.append(q.as_str());
            t.append("\"");
            parts.push(t);
        },
        None => {},
    }
    let ghost qp = parts@.map_values(|p: String| p@);
    assert(qp =~= match extracted(*result, "query"@, Some(60)) {
        Some(q) => seq!["query=\""@ + q + "\""@],
        None => Seq::<Seq<char>>::empty(),
    });
    match result.get("results") {
        None => {},
        Some(v) => match v.as_array() {
            None => {},
            Some(rs) => {
                let mut t = String::from_str("count=");
                let c = decimal_string(rs.len() as u64);
                t.append(c.as_str());
                parts.push(t);
                let m: usize = if rs.len() <= 2 { rs.len() } else { 2 };
                let ghost items = first_n(rs@, 2);
                assert(items =~= rs@.subrange(0, m as int));
                let mut sample: Vec<String> = Vec::new();
                let mut i: usize = 0;
                while i < m
                    invariant
                        i <= m <= rs@.len(),
                        sample@.map_values(|p: String| p@) == tuple_texts(rs@.subrange(0, i as int)),
                    decreases m - i,
                {
                    let ghost before = sample@.map_values(|p: String| p@);
                    match rs[i].as_array() {
                        Some(cells) => {
                            let t = tuple_string(cells);
                            sample.push(t);
                            assert(sample@.map_values(|p: String| p@) =~= before.push(t@));
                        },
                        None => {},
                    }
                    proof {
                        let next = rs@.subrange(0, i + 1);
                        assert(next.drop_last() =~= rs@.subrange(0, i as int));
                        assert(next.last() == rs@[i as int]);
                    }
                    i = i + 1;
                }
                if sample.len() > 0 {
                    let mut t = String::from_str("sample=[");
                    let body = join_strings(&sample, ", ");
                    t.append(body.as_str());
                    t.append("]");
                    parts.push(t);
                }
            },
        },
    }
    assert(parts@.map_values(|p: String| p@) =~= query_parts(*result));
    join_strings(&parts, ", ")
}

/// The parts of a get digest: its key fields (values cut to 40 characters)
/// and the length in bytes of the string in `size_field`.
pub open spec fn get_parts(result: JsonValue, key_fields: Seq<&str>, size_field: Option<&str>) -> Seq<Seq<char>> {
    let keys = field_parts(result, key_fields, 40);
    match size_field {
        Some(f) => match result.field(f@) {
            Some(JsonValue::String(c)) => keys.push(f@ + "_length="@ + decimal(utf8_len(c@))),
            _ => keys,
        },
        None => keys,
    }
}

/// Summarize a get result.
pub fn summarize_get(result: &JsonValue, key_fields: &[&str], size_field: Option<&str>) -> (r: String)
    ensures
        r@ == join_with(get_parts(*result, key_fields@, size_field), ", "@),
{
    let mut parts: Vec<String> = Vec::new();
    push_field_parts(result, key_fields, 40, &mut parts);
    assert(parts@.map_values(|p: String| p@) =~= field_parts(*result, key_fields@, 40));
    match size_field {
        Some(f) => match result.get(f) {
            Some(JsonValue::String(content)) => {
                let n = content.as_str().as_bytes().len();
                assert(n == utf8_len(content@));
                let mut t = String::from_str(f);
                t.append("_length=");
                let c = decimal_string(n as u64);
                t.append(c.as_str());
                parts.push(t);
            },
            _ => {},
        },
        None => {},
    }
    assert(parts@.map_values(|p: String| p@) =~= get_parts(*result, key_fields@, size_field));
    join_strings(&parts, ", ")
}

// ---------------------------------------------------------------------------
// Custom tools
// ---------------------------------------------------------------------------

/// The value as a boolean, where it is one.
pub open spec fn bool_of(v: JsonValue) -> Option<bool> {
    match v {
        JsonValue::Bool(b) => Some(b),
        _ => None,
    }
}

/// A preview of a custom tool's output: strings and the compact JSON of
/// arrays and objects cut to 50 characters, other values as JSON.
pub open spec fn output_preview(v: JsonValue) -> Seq<char> {
    match v {
        JsonValue::String(s) => truncated_with_ellipsis(s@, 50),
        JsonValue::Array(_) => truncated_with_ellipsis(json_text(v), 50),
        JsonValue::Object(_) => truncated_with_ellipsis(json_text(v), 50),
        _ => json_text(v),
    }
}

/// The parts of a custom tool digest: duration, whether it ran sandboxed,
/// and a preview of its output.
pub open spec fn custom_parts(result: JsonValue) -> Seq<Seq<char>> {
    let d = match result.field("duration_ms"@) {
        Some(v) => match v.u64_of() {
            Some(n) => seq!["duration_ms="@ + decimal(n as nat)],
            None => Seq::empty(),
        },
        None => Seq::empty(),
    };
    let s = match result.field("sandboxed"@) {
        Some(v) => match bool_of(v) {
            Some(b) => d.push("sandboxed="@ + bool_text(b)),
            None => d,
        },
        None => d,
    };
    match result.field("result"@) {
        Some(o) => s.push("result="@ + output_preview(o)),
        None => s,
    }
}

/// Summarize a custom tool result.
pub fn summarize_custom(result: &JsonValue) -> (r: String)
    ensures
        r@ == join_with(custom_parts(*result), ", "@),
{
    let mut parts: Vec<String> = Vec::new();
    match result.get("duration_ms") {
        Some(v) => match v.as_u64() {
            Some(n) => {
                let mut t = String::from_str("duration_ms=");
                let c = decimal_string(n);
                t.append(c.as_str());
                parts.push(t);
            },
            None => {},
        },
        None => {},
    }
    let ghost d = parts@.map_values(|p: String| p@);
    assert(d =~= match result.field("duration_ms"@) {
        Some(v) => match v.u64_of() {
            Some(n) => seq!["duration_ms="@ + decimal(n as nat)],
            None => Seq::<Seq<char>>::empty(),
        },
        None => Seq::<Seq<char>>::empty(),
    });
    match result.get("sandboxed") {
        Some(JsonValue::Bool(b)) => {
            let mut t = String::from_str("sandboxed=");
            if *b {
                t.append("true");
            } else {
                t.append("false");
            }
            parts.push(t);
            assert(parts@.map_values(|p: String| p@) =~= d.push(t@));
        },
        _ => {},
    }
    let ghost sb = parts@.map_values(|p: String| p@);
    assert(sb =~= match result.field("sandboxed"@) {
        Some(v) => match bool_of(v) {
            Some(b) => d.push("sandboxed="@ + bool_text(b)),
            None => d,
        },
        None => d,
    });
    match result.get("result") {
        Some(o) => {
            let preview = match o {
                JsonValue::String(s) => truncate_for_summary(s.as_str(), 50),
                JsonValue::Array(_) => {
                    let j = json_string(o);
                    truncate_for_summary(j.as_str(), 50)
                },
                JsonValue::Object(_) => {
                    let j = json_string(o);
                    truncate_for_summary(j.as_str(), 50)
                },
                _ => json_string(o),
            };
            assert(preview@ == output_preview(*o));
            let mut t = String::from_str("result=");
            t.append(preview.as_str());
            parts.push(t);
            assert(parts@.map_values(|p: String| p@) =~= sb.push(t@));
        },
        None => {},
    }
    assert(parts@.map_values(|p: String| p@) =~= custom_parts(*result));
    join_strings(&parts, ", ")
}

/// A custom tool digest reports the boolean `sandboxed` member as it is:
/// `sandboxed=true` when it is true, `sandboxed=false` when it is false,
/// and never the other.
pub proof fn law_custom_digest_reports_sandboxed(result: JsonValue, b: bool)
    requires
        result.field("sandboxed"@) == Some(JsonValue::Bool(b)),
    ensures
        custom_parts(result).contains("sandboxed="@ + if b { "true"@ } else { "false"@ }),
        !custom_parts(result).contains("sandboxed="@ + if b { "false"@ } else { "true"@ }),
{
    reveal_strlit("sandboxed=");
    reveal_strlit("true");
    reveal_strlit("false");
    reveal_strlit("duration_ms=");
    reveal_strlit("result=");
    let parts = custom_parts(result);
    let right = "sandboxed="@ + if b { "true"@ } else { "false"@ };
    let wrong = "sandboxed="@ + if b { "false"@ } else { "true"@ };
    assert(bool_text(b) == if b { "true"@ } else { "false"@ });
    let d = match result.field("duration_ms"@) {
        Some(v) => match v.u64_of() {
            Some(n) => seq!["duration_ms="@ + decimal(n as nat)],
            None => Seq::<Seq<char>>::empty(),
        },
        None => Seq::<Seq<char>>::empty(),
    };
    let s = d.push(right);
    assert(s[d.len() as int] == right);
    assert(wrong[10] != right[10]);
    assert forall|i: int| 0 <= i < parts.len() implies parts[i] != wrong by {
        if i < d.len() {
            assert(parts[i] == d[i]);
            assert(parts[i][0] == 'd');
        } else if i == d.len() {
            assert(parts[i] == right);
        } else {
            match result.field("result"@) {
                Some(o) => {
                    assert(parts[i] == "result="@ + output_preview(o));
                    assert(parts[i][0] == 'r');
                },
                None => {},
            }
        }
    }
    match result.field("result"@) {
        Some(o) => {
            assert(parts[d.len() as int] == right);
        },
        None => {
            assert(parts[d.len() as int] == right);
        },
    }
}

/// A custom tool digest starts with the run's duration when the result
/// gives one as a whole number.
pub proof fn law_custom_digest_reports_duration(result: JsonValue, n: u64)
    requires
        result.field("duration_ms"@) matches Some(v) && v.u64_of() == Some(n),
    ensures
        custom_parts(result).len() >= 1,
        custom_parts(result)[0] == "duration_ms="@ + decimal(n as nat),
{
}

// ---------------------------------------------------------------------------
// Bluesky reads
// ---------------------------------------------------------------------------

/// The string at `v.k1.k2`.
pub open spec fn nested_str(v: JsonValue, k1: Seq<char>, k2: Seq<char>) -> Option<Seq<char>> {
    match v.field(k1) {
        Some(a) => match a.field(k2) {
            Some(h) => string_text(h),
            None => None,
        },
        None => None,
    }
}

fn nested_string<'a>(v: &'a JsonValue, k1: &str, k2: &str) -> (r: Option<&'a str>)
    ensures
        match r {
            Some(s) => nested_str(*v, k1@, k2@) == Some(s@),
            None => nested_str(*v, k1@, k2@) is None,
        },
{
    match v.get(k1) {
        None => None,
        Some(a) => match a.get(k2) {
            None => None,
            Some(h) => h.as_str(),
        },
    }
}

/// The elements of the array in member `field`, or none.
fn array_in<'a>(result: &'a JsonValue, field: &str) -> (r: Option<&'a Vec<JsonValue>>)
    ensures
        match r {
            Some(a) => array_field(*result, field@) == a@,
            None => array_field(*result, field@) == Seq::<JsonValue>::empty(),
        },
{
    match result.get(field) {
        None => None,
        Some(v) => v.as_array(),
    }
}

/// The digest of a timeline: the number of posts and the handle of the
/// first post's author (cut to 25 characters).
pub open spec fn timeline_digest(result: JsonValue) -> Seq<char> {
    let posts = array_field(result, "posts"@);
    let count = "count="@ + decimal(posts.len());
    if posts.len() > 0 {
        match nested_str(posts[0], "author"@, "handle"@) {
            Some(h) => count + ", first_author="@ + truncated_with_ellipsis(h, 25),
            None => count,
        }
    } else {
        count
    }
}

fn summarize_timeline(result: &JsonValue) -> (r: String)
    ensures
        r@ == timeline_digest(*result),
{
    let mut out = String::from_str("count=");
    match array_in(result, "posts") {
        None => {
            let c = decimal_string(0);
            out.append(c.as_str());
        },
        Some(posts) => {
            let c = decimal_string(posts.len() as u64);
            out.append(c.as_str());
            if posts.len() > 0 {
                match nested_string(&posts[0], "author", "handle") {
                    Some(h) => {
                        out.append(", first_author=");
                        let t = truncate_for_summary(h, 25);
                        out.append(t.as_str());
                    },
                    None => {},
                }
            }
        },
    }
    out
}

/// The `reason` strings of the notifications that have one, in order.
pub open spec fn reasons(items: Seq<JsonValue>) -> Seq<Seq<char>>
    decreases items.len(),
{
    if items.len() == 0 {
        Seq::empty()
    } else {
        let rest = reasons(items.drop_last());
        match items.last().field("reason"@) {
            Some(r) => match string_text(r) {
                Some(t) => rest.push(t),
                None => rest,
            },
            None => rest,
        }
    }
}

/// How often `x` occurs in `s`.
pub open spec fn occurrences(s: Seq<Seq<char>>, x: Seq<char>) -> nat
    decreases s.len(),
{
    if s.len() == 0 {
        0
    } else {
        occurrences(s.drop_last(), x) + if s.last() == x { 1nat } else { 0nat }
    }
}

/// The distinct texts of `s`, in the order of their first occurrence.
pub open spec fn distinct_in_order(s: Seq<Seq<char>>) -> Seq<Seq<char>>
    decreases s.len(),
{
    if s.len() == 0 {
        Seq::empty()
    } else {
        let d = distinct_in_order(s.drop_last());
        if d.contains(s.last()) {
            d
        } else {
            d.push(s.last())
        }
    }
}

/// Each distinct reason with its number of notifications, in the order of
/// first occurrence.
pub open spec fn reason_tally(s: Seq<Seq<char>>) -> Seq<Seq<char>> {
    distinct_in_order(s).map_values(|r: Seq<char>| r + ": "@ + decimal(occurrences(s, r)))
}

/// The digest of notifications: their number and how many there are of
/// each reason.
pub open spec fn notifications_digest(result: JsonValue) -> Seq<char> {
    let ns = array_field(result, "notifications"@);
    let count = "count="@ + decimal(ns.len());
    let tally = reason_tally(reasons(ns));
    if tally.len() == 0 {
        count
    } else {
        count + ", reasons={"@ + join_with(tally, ", "@) + "}"@
    }
}

/// No text occurs twice among the distinct texts, and each of them occurs
/// in the sequence.
pub proof fn lemma_distinct_in_order(s: Seq<Seq<char>>)
    ensures
        forall|a: int, b: int|
            0 <= a < b < distinct_in_order(s).len() ==> distinct_in_order(s)[a] != distinct_in_order(s)[b],
        forall|x: Seq<char>| !distinct_in_order(s).contains(x) ==> occurrences(s, x) == 0,
    decreases s.len(),
{
    if s.len() > 0 {
        let t = s.drop_last();
        let last = s.last();
        lemma_distinct_in_order(t);
        let d = distinct_in_order(t);
        let ds = distinct_in_order(s);
        if !d.contains(last) {
            assert(ds == d.push(last));
            assert forall|a: int, b: int| 0 <= a < b < ds.len() implies ds[a] != ds[b] by {
                if b == d.len() {
                    assert(ds[a] == d[a]);
                    if d[a] == last {
                        assert(d.contains(last));
                    }
                }
            }
        }
        assert(ds.contains(last)) by {
            if d.contains(last) {
                assert(ds == d);
            } else {
                assert(ds[d.len() as int] == last);
            }
        }
        assert forall|x: Seq<char>| !ds.contains(x) implies occurrences(s, x) == 0 by {
            if d.contains(x) {
                let i = choose|i: int| 0 <= i < d.len() && d[i] == x;
                assert(ds[i] == x);
            }
            assert(!d.contains(x));
            assert(occurrences(t, x) == 0);
            assert(x != last);
            assert(occurrences(s, x) == occurrences(t, x));
        }
    }
}

/// The distinct texts in the order of first occurrence, with how often
/// each occurs.
#[verifier::spinoff_prover]
fn tally(rs: &Vec<String>) -> (r: (Vec<String>, Vec<usize>))
    ensures
        r.0@.map_values(|p: String| p@) == distinct_in_order(rs@.map_values(|p: String| p@)),
        r.1@.len() == r.0@.len(),
        forall|k: int|
            0 <= k < r.1@.len() ==> r.1@[k] == occurrences(rs@.map_values(|p: String| p@), #[trigger] r.0@[k]@),
{
    let ghost rv = rs@.map_values(|p: String| p@);
    let mut names: Vec<String> = Vec::new();
    let mut counts: Vec<usize> = Vec::new();
    let mut j: usize = 0;
    while j < rs.len()
        invariant
            j <= rs@.len(),
            rv == rs@.map_values(|p: String| p@),
            names@.map_values(|p: String| p@) == distinct_in_order(rv.subrange(0, j as int)),
            counts@.len() == names@.len(),
            forall|k: int|
                0 <= k < counts@.len() ==> counts@[k] == occurrences(
                    rv.subrange(0, j as int),
                    #[trigger] names@[k]@,
                ) && counts@[k] <= j,
        decreases rs.len() - j,
    {
        let ghost prefix = rv.subrange(0, j as int);
        let ghost next = rv.subrange(0, j + 1);
        let ghost nv = names@.map_values(|p: String| p@);
        proof {
            assert(next.drop_last() =~= prefix);
            assert(next.last() == rv[j as int]);
            assert(rv[j as int] == rs@[j as int]@);
            lemma_distinct_in_order(prefix);
        }
        let mut k: usize = 0;
        let mut found = false;
        while k < names.len() && !found
            invariant
                k <= names@.len(),
                j < rs@.len(),
                found ==> k < names@.len() && names@[k as int]@ == rs@[j as int]@,
                !found ==> forall|q: int| 0 <= q < k ==> names@[q]@ != rs@[j as int]@,
            decreases (names@.len() - k) * 2 + if found { 0int } else { 1int },
        {
            if crate::text::str_eq(names[k].as_str(), rs[j].as_str()) {
                found = true;
            } else {
                k = k + 1;
            }
        }
        if found {
            let c = counts[k] + 1;
            counts.set(k, c);
            proof {
                assert(nv.contains(rv[j as int])) by {
                    assert(nv[k as int] == rv[j as int]);
                }
                assert(distinct_in_order(next) == distinct_in_order(prefix));
                assert forall|q: int| 0 <= q < counts@.len() implies counts@[q] == occurrences(
                    next,
                    #[trigger] names@[q]@,
                ) && counts@[q] <= j + 1 by {
                    assert(nv[q] == names@[q]@);
                    if q != k {
                        assert(nv[q] != nv[k as int]);
                    }
                }
            }
        } else {
            let ghost x = rv[j as int];
            proof {
                assert(!nv.contains(x)) by {
                    if nv.contains(x) {
                        let q = choose|q: int| 0 <= q < nv.len() && nv[q] == x;
                        assert(names@[q]@ == nv[q]);
                    }
                }
                assert(occurrences(prefix, x) == 0);
            }
            let nm = rs[j].clone();
            names.push(nm);
            counts.push(1);
            proof {
                assert(names@.map_values(|p: String| p@) =~= nv.push(x));
                assert forall|q: int| 0 <= q < counts@.len() implies counts@[q] == occurrences(
                    next,
                    #[trigger] names@[q]@,
                ) && counts@[q] <= j + 1 by {
                    if q < nv.len() {
                        assert(names@[q]@ == nv[q]);
                        assert(nv[q] != x);
                    }
                }
            }
        }
        j = j + 1;
    }
    assert(rv.subrange(0, rv.len() as int) =~= rv);
    (names, counts)
}

fn summarize_notifications(result: &JsonValue) -> (r: String)
    ensures
        r@ == notifications_digest(*result),
{
    let empty: Vec<JsonValue> = Vec::new();
    let ns: &Vec<JsonValue> = match array_in(result, "notifications") {
        Some(a) => a,
        None => &empty,
    };
    assert(array_field(*result, "notifications"@) == ns@);
    // The reasons, in order.
    let mut rs: Vec<String> = Vec::new();
    let mut i: usize = 0;
    while i < ns.len()
        invariant
            i <= ns@.len(),
            rs@.map_values(|p: String| p@) == reasons(ns@.subrange(0, i as int)),
        decreases ns.len() - i,
    {
        let ghost before = rs@.map_values(|p: String| p@);
        match ns[i].get("reason") {
            Some(r) => match r.as_str() {
                Some(t) => {
                    let ts = String::from_str(t);
                    rs.push(ts);
                    assert(rs@.map_values(|p: String| p@) =~= before.push(ts@));
                },
                None => {},
            },
            None => {},
        }
        proof {
            let next = ns@.subrange(0, i + 1);
            assert(next.drop_last() =~= ns@.subrange(0, i as int));
            assert(next.last() == ns@[i as int]);
        }
        i = i + 1;
    }
    assert(ns@.subrange(0, ns@.len() as int) =~= ns@);
    let ghost rv = rs@.map_values(|p: String| p@);
    let (names, counts) = tally(&rs);
    // The tally entries.
    let ghost dv = names@.map_values(|p: String| p@);
    let mut entries: Vec<String> = Vec::new();
    let mut m: usize = 0;
    while m < names.len()
        invariant
            m <= names@.len(),
            counts@.len() == names@.len(),
            dv == names@.map_values(|p: String| p@),
            dv == distinct_in_order(rv),
            forall|k: int| 0 <= k < counts@.len() ==> counts@[k] == occurrences(rv, #[trigger] names@[k]@),
            entries@.map_values(|p: String| p@) == reason_tally(rv).subrange(0, m as int),
        decreases names.len() - m,
    {
        let mut t = names[m].clone();
        t.append(": ");
        let c = decimal_string(counts[m] as u64);
        t.append(c.as_str());
        let ghost before = entries@.map_values(|p: String| p@);
        entries.push(t);
        proof {
            assert(dv[m as int] == names@[m as int]@);
            assert(reason_tally(rv)[m as int] == dv[m as int] + ": "@ + decimal(occurrences(rv, dv[m as int])));
            assert(reason_tally(rv)[m as int] == t@);
            assert(entries@.map_values(|p: String| p@) =~= before.push(t@));
            assert(entries@.map_values(|p: String| p@) =~= reason_tally(rv).subrange(0, m + 1));
        }
        m = m + 1;
    }
    assert(reason_tally(rv).subrange(0, names@.len() as int) =~= reason_tally(rv));
    let mut out = String::from_str("count=");
    let c = decimal_string(ns.len() as u64);
    out.append(c.as_str());
    if entries.len() > 0 {
        out.append(", reasons={");
        let body = join_strings(&entries, ", ");
        out.append(body.as_str());
        out.append("}");
    }
    out
}

/// The parts of a search digest: the query (cut to 40 characters), the
/// number of posts (or, without posts, of users), and whether there is a
/// cursor for more.
pub open spec fn search_parts(result: JsonValue) -> Seq<Seq<char>> {
    let q = match extracted(result, "query"@, Some(40)) {
        Some(q) => seq!["query=\""@ + q + "\""@],
        None => Seq::empty(),
    };
    let listing = match result.field("posts"@) {
        Some(p) => Some(p),
        None => result.field("users"@),
    };
    let n: nat = match listing {
        Some(v) => match v.items() {
            Some(a) => a.len(),
            None => 0,
        },
        None => 0,
    };
    let with_count = q.push("count="@ + decimal(n));
    if result.field("cursor"@) is Some {
        with_count.push("has_cursor=true"@)
    } else {
        with_count
    }
}

fn summarize_search(result: &JsonValue) -> (r: String)
    ensures
        r@ == join_with(search_parts(*result), ", "@),
{
    let mut parts: Vec<String> = Vec::new();
    match extract_string(result, "query", Some(40)) {
        Some(q) => {
            let mut t = String::from_str("query=\"");
            t.append(q.as_str());
            t.append("\"");
            parts.push(t);
        },
        None => {},
    }
    let listing = match result.get("posts") {
        Some(p) => Some(p),
        None => result.get("users"),
    };
    let n: usize = match listing {
        Some(v) => match v.as_array() {
            Some(a) => a.len(),
            None => 0,
        },
        None => 0,
    };
    let mut t = String::from_str("count=");
    let c = decimal_string(n as u64);
    t.append(c.as_str());
    parts.push(t);
    if result.get("cursor").is_some() {
        parts.push(String::from_str("has_cursor=true"));
    }
    assert(parts@.map_values(|p: String| p@) =~= search_parts(*result));
    join_strings(&parts, ", ")
}

/// The parts of a thread digest: the root post's author (cut to 25
/// characters) and the numbers of replies in all and of our own.
pub open spec fn thread_parts(result: JsonValue) -> Seq<Seq<char>> {
    let a = match result.field("root"@) {
        Some(r) => match nested_str(r, "author"@, "handle"@) {
            Some(h) => seq!["root_author="@ + truncated_with_ellipsis(h, 25)],
            None => Seq::empty(),
        },
        None => Seq::empty(),
    };
    let t = match result.field("total_replies"@) {
        Some(v) => match v.u64_of() {
            Some(n) => a.push("total_replies="@ + decimal(n as nat)),
            None => a,
        },
        None => a,
    };
    match result.field("my_replies"@) {
        Some(v) => match v.u64_of() {
            Some(n) => t.push("my_replies="@ + decimal(n as nat)),
            None => t,
        },
        None => t,
    }
}

fn summarize_thread(result: &JsonValue) -> (r: String)
    ensures
        r@ == join_with(thread_parts(*result), ", "@),
{
    let mut parts: Vec<String> = Vec::new();
    match result.get("root") {
        Some(root) => match nested_string(root, "author", "handle") {
            Some(h) => {
                let mut t = String::from_str("root_author=");
                let hs = truncate_for_summary(h, 25);
                t.append(hs.as_str());
                parts.push(t);
            },
            None => {},
        },
        None => {},
    }
    let ghost a = parts@.map_values(|p: String| p@);
    match result.get("total_replies") {
        Some(v) => match v.as_u64() {
            Some(n) => {
                let mut t = String::from_str("total_replies=");
                let c = decimal_string(n);
                t.append(c.as_str());
                parts.push(t);
                assert(parts@.map_values(|p: String| p@) =~= a.push(t@));
            },
            None => {},
        },
        None => {},
    }
    let ghost b = parts@.map_values(|p: String| p@);
    match result.get("my_replies") {
        Some(v) => match v.as_u64() {
            Some(n) => {
                let mut t = String::from_str("my_replies=");
                let c = decimal_string(n);
                t.append(c.as_str());
                parts.push(t);
                assert(parts@.map_values(|p: String| p@) =~= b.push(t@));
            },
            None => {},
        },
        None => {},
    }
    assert(parts@.map_values(|p: String| p@) =~= thread_parts(*result));
    join_strings(&parts, ", ")
}

/// The digest of a Bluesky read, by its kind.
pub open spec fn bluesky_read_digest(result: JsonValue, read_type: BlueskyReadType) -> Seq<char> {
    match read_type {
        BlueskyReadType::Timeline => timeline_digest(result),
        BlueskyReadType::Notifications => notifications_digest(result),
        BlueskyReadType::Search => join_with(search_parts(result), ", "@),
        BlueskyReadType::Thread => join_with(thread_parts(result), ", "@),
    }
}

/// Summarize a Bluesky read result.
pub fn summarize_bluesky_read(result: &JsonValue, read_type: BlueskyReadType) -> (r: String)
    ensures
        r@ == bluesky_read_digest(*result, read_type),
{
    match read_type {
        BlueskyReadType::Timeline => summarize_timeline(result),
        BlueskyReadType::Notifications => summarize_notifications(result),
        BlueskyReadType::Search => summarize_search(result),
        BlueskyReadType::Thread => summarize_thread(result),
    }
}

// ---------------------------------------------------------------------------
// By category
// ---------------------------------------------------------------------------

/// The digest of a result in a category; none for excluded tools.
pub open spec fn category_digest(category: CategoryModel, result: JsonValue, web_base: Option<&str>) -> Seq<char> {
    match category {
        CategoryModel::SingleMutation { key_fields, web_path } => single_mutation_digest(
            result,
            key_fields,
            web_path,
            web_base,
        ),
        CategoryModel::BatchMutation { count_field, sample_field, sample_key } => batch_digest(
            result,
            count_field@,
            sample_field@,
            sample_key@,
        ),
        CategoryModel::List { count_field, items_field, sample_key } => list_digest(
            result,
            count_field@,
            items_field@,
            sample_key@,
        ),
        CategoryModel::Query => join_with(query_parts(result), ", "@),
        CategoryModel::Get { key_fields, size_field } => join_with(
            get_parts(result, key_fields, size_field),
            ", "@,
        ),
        CategoryModel::BlueskyRead(t) => bluesky_read_digest(result, t),
        CategoryModel::Custom => join_with(custom_parts(result), ", "@),
        CategoryModel::Excluded => Seq::empty(),
    }
}

fn digest_in(category: &ToolResultCategory, result: &JsonValue, web_base: Option<&str>) -> (r: String)
    ensures
        r@ == category_digest(category@, *result, web_base),
{
    match category {
        ToolResultCategory::SingleMutation { key_fields, web_path } => summarize_single_mutation(
            result,
            key_fields.as_slice(),
            *web_path,
            web_base,
        ),
        ToolResultCategory::BatchMutation { count_field, sample_field, sample_key } =>
            summarize_batch_mutation(result, count_field, sample_field, sample_key),
        ToolResultCategory::List { count_field, items_field, sample_key } => summarize_list(
            result,
            count_field,
            items_field,
            sample_key,
        ),
        ToolResultCategory::Query => summarize_query(result),
        ToolResultCategory::Get { key_fields, size_field } => summarize_get(
            result,
            key_fields.as_slice(),
            *size_field,
        ),
        ToolResultCategory::BlueskyRead(t) => summarize_bluesky_read(result, *t),
        ToolResultCategory::Custom => summarize_custom(result),
        ToolResultCategory::Excluded => String::new(),
    }
}

/// Summarize a tool result based on its category; `web_base` is the web
/// UI's base URL, where one is configured.
pub fn summarize_result(tool_name: &str, result: &JsonValue, web_base: Option<&str>) -> (r: String)
    ensures
        r@ == category_digest(tool_category_spec(tool_name@), *result, web_base),
{
    let category = get_tool_category(tool_name);
    digest_in(&category, result, web_base)
}

// ---------------------------------------------------------------------------
// The record of a tool call
// ---------------------------------------------------------------------------

/// What the thought stream records of a tool call for the web UI.
pub struct ToolCallContent {
    pub tool: String,
    /// The arguments as an object; none when there were none.
    pub args: Option<JsonValue>,
    /// The result, where it is small enough to keep.
    pub result: Option<JsonValue>,
    /// The digest of the result, where it is not empty.
    pub summary: Option<String>,
    /// The web UI link of a created or updated record.
    pub link: Option<String>,
    /// The full error message of a failed call.
    pub error: Option<String>,
    pub failed: bool,
}

/// A text, or none when it is empty.
pub open spec fn non_empty(t: Seq<char>) -> Option<Seq<char>> {
    if t.len() == 0 {
        None
    } else {
        Some(t)
    }
}

/// What is recorded of a successful call whose output text parsed as the
/// JSON value `json`, by the tool's result category: single mutations keep
/// their (small) result and the record's link; other kinds only their
/// digest; excluded tools nothing.
pub open spec fn recorded_json(c: ToolCallContent, name: Seq<char>, json: JsonValue, web_base: Option<&str>) -> bool {
    let category = tool_category_spec(name);
    let digest = category_digest(category, json, web_base);
    match category {
        CategoryModel::Excluded => c.result is None && c.summary is None && c.link is None,
        CategoryModel::SingleMutation { web_path, .. } => c.result == Some(json) && string_opt(c.summary)
            == non_empty(digest) && string_opt(c.link) == record_link(json, web_path, web_base),
        _ => c.result is None && string_opt(c.summary) == non_empty(digest) && c.link is None,
    }
}

/// Decide what the thought stream records of a tool call.  `parsed` is the
/// JSON value of the first text of the result, when that text is JSON;
/// `web_base` is the web UI's base URL, where one is configured.
pub fn tool_call_content(
    name: &str,
    arguments: Vec<(String, JsonValue)>,
    result: &CallToolResult,
    parsed: Option<JsonValue>,
    is_error: bool,
    web_base: Option<&str>,
) -> (r: ToolCallContent)
    ensures
        r.tool@ == name@,
        r.failed == is_error,
        arguments@.len() == 0 ==> r.args is None,
        arguments@.len() > 0 ==> r.args == Some(JsonValue::Object(arguments)),
        result.content@.len() == 0 ==> r.result is None && r.summary is None && r.link is None
            && r.error is None,
        result.content@.len() > 0 && is_error ==> r.result is None && r.summary is None && r.link
            is None && string_opt(r.error) == Some(result.content@[0]->Text_text@),
        result.content@.len() > 0 && !is_error ==> r.error is None && match parsed {
            None => r.summary is None && r.link is None && (r.result matches Some(
                JsonValue::String(t),
            ) && t@ == result.content@[0]->Text_text@),
            Some(json) => recorded_json(r, name@, json, web_base),
        },
{
    let args = if arguments.len() == 0 {
        None
    } else {
        Some(JsonValue::Object(arguments))
    };
    let tool = String::from_str(name);
    if result.content.len() == 0 {
        return ToolCallContent { tool, args, result: None, summary: None, link: None, error: None, failed: is_error };
    }
    let text: &String = match &result.content[0] {
        ToolContent::Text { text } => text,
    };
    if is_error {
        return ToolCallContent {
            tool,
            args,
            result: None,
            summary: None,
            link: None,
            error: Some(text.clone()),
            failed: is_error,
        };
    }
    match parsed {
        None => ToolCallContent {
            tool,
            args,
            result: Some(JsonValue::String(text.clone())),
            summary: None,
            link: None,
            error: None,
            failed: is_error,
        },
        Some(json) => {
            let category = get_tool_category(name);
            match category {
                ToolResultCategory::Excluded => ToolCallContent {
                    tool,
                    args,
                    result: None,
                    summary: None,
                    link: None,
                    error: None,
                    failed: is_error,
                },
                ToolResultCategory::SingleMutation { key_fields, web_path } => {
                    let sum = summarize_result(name, &json, web_base);
                    let link = record_link_of(&json, web_path, web_base);
                    let summary = if sum.as_str().unicode_len() == 0 {
                        None
                    } else {
                        Some(sum)
                    };
                    ToolCallContent { tool, args, result: Some(json), summary, link, error: None, failed: is_error }
                },
                _ => {
                    let sum = summarize_result(name, &json, web_base);
                    let summary = if sum.as_str().unicode_len() == 0 {
                        None
                    } else {
                        Some(sum)
                    };
                    ToolCallContent { tool, args, result: None, summary, link: None, error: None, failed: is_error }
                },
            }
        },
    }
}

} // verus!
