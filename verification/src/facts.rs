//! Facts from tool arguments: the checks on a new fact, a batch of them and
//! an update, and when a fact expires.
//!
//! Derived predicates are generated from PDS records and cannot be written
//! by hand; the caller passes their names.  A fact's confidence is a
//! fraction, which the caller sets (clamped to `0.0..=1.0`) from the
//! argument.

use vstd::prelude::*;
use crate::text::{decimal, decimal_string};
use crate::strset::string_views;
use crate::protocol::CallToolResult;
use crate::json::{
    JsonValue, lookup_member, member, member_text, member_str, parse_string_array, string_text,
    non_string_message,
};
use crate::custom_tools::{string_list, collect_strings};
use crate::directives::MAX_BATCH_SIZE;

verus! {

/// What a new fact holds besides its confidence, expiry and timestamps.
#[derive(Debug)]
pub struct FactDraft {
    pub predicate: String,
    pub args: Vec<String>,
    pub tags: Vec<String>,
}

/// The text of the error a result carries.
pub open spec fn error_text(e: CallToolResult) -> Option<Seq<char>> {
    if e.is_error == Some(true) && e.content@.len() == 1 {
        Some(e.content@[0]->Text_text@)
    } else {
        None
    }
}

fn fail(msg: String) -> (r: CallToolResult)
    ensures
        error_text(r) == Some(msg@),
{
    CallToolResult::error(msg)
}

/// `p` is one of the derived predicates.
pub open spec fn is_derived(derived: Seq<String>, p: Seq<char>) -> bool {
    string_views(derived).contains(p)
}

fn derived_in(derived: &Vec<String>, p: &str) -> (r: bool)
    ensures
        r == is_derived(derived@, p@),
{
    match crate::strset::position_in(derived, p) {
        Some(i) => {
            assert(string_views(derived@)[i as int] == p@);
            true
        },
        None => false,
    }
}

/// The first element of an array that is not a string, if any.
pub open spec fn first_non_string(items: Seq<JsonValue>) -> Option<int> {
    if exists|i: int| 0 <= i < items.len() && string_text(items[i]) is None {
        Some(choose|i: int| 0 <= i < items.len() && string_text(items[i]) is None && forall|j: int|
            0 <= j < i ==> string_text(#[trigger] items[j]) is Some)
    } else {
        None
    }
}

/// Why the arguments of a fact are refused, if they are; `label` names the
/// args array in messages and `prefix` leads the others.
pub open spec fn args_error(m: Seq<(String, JsonValue)>, label: Seq<char>) -> Option<Seq<char>> {
    match lookup_member(m, "args"@) {
        Some(v) => match v.items() {
            Some(a) => match first_non_string(a) {
                Some(i) => Some(non_string_message(label, i as nat, a[i])),
                None => None,
            },
            None => None,
        },
        None => None,
    }
}

/// `f` holds the predicate, the string arguments and the string tags.
pub open spec fn fact_from(f: FactDraft, m: Seq<(String, JsonValue)>) -> bool {
    &&& Some(f.predicate@) == member_text(m, "predicate"@)
    &&& lookup_member(m, "args"@) matches Some(v) && v.items() matches Some(a) && string_views(f.args@)
        == a.map_values(|x: JsonValue| string_text(x)->0)
    &&& string_views(f.tags@) == string_list(m, "tags"@)
}

/// The message for a derived predicate written by hand.
pub open spec fn derived_message(p: Seq<char>) -> Seq<char> {
    "Cannot create derived fact. '"@ + p + "' is automatically generated from PDS records."@
}

/// Why the arguments of a new fact are refused, if they are.
pub open spec fn new_fact_error(m: Seq<(String, JsonValue)>, derived: Seq<String>) -> Option<Seq<char>> {
    match member_text(m, "predicate"@) {
        None => Some("Missing required parameter: predicate"@),
        Some(p) => if is_derived(derived, p) {
            Some(derived_message(p))
        } else if !(lookup_member(m, "args"@) matches Some(v) && v.items() is Some) {
            Some("Missing required parameter: args"@)
        } else {
            args_error(m, "args"@)
        },
    }
}

fn string_args(a: &Vec<JsonValue>, label: &str) -> (r: Result<Vec<String>, CallToolResult>)
    ensures
        match r {
            Ok(v) => first_non_string(a@) is None && string_views(v@) == a@.map_values(
                |x: JsonValue| string_text(x)->0,
            ),
            Err(e) => first_non_string(a@) matches Some(i) && error_text(e) == Some(
                non_string_message(label@, i as nat, a@[i]),
            ),
        },
{
    let sl = a.as_slice();
    assert(sl@ == a@);
    match parse_string_array(sl, label) {
        Ok(v) => {
            proof {
                assert(string_views(v@) =~= a@.map_values(|x: JsonValue| string_text(x)->0));
                if exists|i: int| 0 <= i < a@.len() && string_text(a@[i]) is None {
                    let i = choose|i: int| 0 <= i < a@.len() && string_text(a@[i]) is None;
                    assert(string_text(a@[i]) is Some);
                }
            }
            Ok(v)
        },
        Err(e) => {
            proof {
                let i = choose|i: int|
                    0 <= i < a@.len() && string_text(a@[i]) is None && (forall|j: int|
                        0 <= j < i ==> (#[trigger] string_text(a@[j])) is Some) && e.is_error == Some(true)
                        && e.content@.len() == 1 && e.content@[0]->Text_text@ == non_string_message(
                        label@,
                        i as nat,
                        a@[i],
                    );
                let c = first_non_string(a@)->0;
                assert(0 <= c < a@.len() && string_text(a@[c]) is None && forall|j: int|
                    0 <= j < c ==> string_text(#[trigger] a@[j]) is Some);
                if c < i {
                    assert(string_text(a@[c]) is Some);
                }
                if i < c {
                    assert(string_text(a@[i]) is Some);
                }
            }
            Err(e)
        },
    }
}

fn tags_in(m: &Vec<(String, JsonValue)>) -> (r: Vec<String>)
    ensures
        string_views(r@) == string_list(m@, "tags"@),
{
    match member(m, "tags") {
        Some(v) => match v.as_array() {
            Some(a) => collect_strings(a),
            None => {
                let e: Vec<String> = Vec::new();
                assert(string_views(e@) =~= Seq::<Seq<char>>::empty());
                e
            },
        },
        None => {
            let e: Vec<String> = Vec::new();
            assert(string_views(e@) =~= Seq::<Seq<char>>::empty());
            e
        },
    }
}

/// Check the arguments of a new fact and draft it; `derived` names the
/// derived predicates.
pub fn fact_draft(arguments: &Vec<(String, JsonValue)>, derived: &Vec<String>) -> (r: Result<FactDraft, CallToolResult>)
    ensures
        match r {
            Ok(f) => new_fact_error(arguments@, derived@) is None && fact_from(f, arguments@),
            Err(e) => new_fact_error(arguments@, derived@) is Some && error_text(e) == new_fact_error(
                arguments@,
                derived@,
            ),
        },
{
    let p = match member_str(arguments, "predicate") {
        Some(p) => p,
        None => {
            return Err(fail(String::from_str("Missing required parameter: predicate")));
        },
    };
    if derived_in(derived, p) {
        let mut msg = String::from_str("Cannot create derived fact. '");
        msg.append(p);
        msg.append("' is automatically generated from PDS records.");
        return Err(fail(msg));
    }
    let a = match member(arguments, "args") {
        Some(v) => match v.as_array() {
            Some(a) => a,
            None => {
                return Err(fail(String::from_str("Missing required parameter: args")));
            },
        },
        None => {
            return Err(fail(String::from_str("Missing required parameter: args")));
        },
    };
    let args = match string_args(a, "args") {
        Ok(v) => v,
        Err(e) => {
            return Err(e);
        },
    };
    Ok(FactDraft { predicate: String::from_str(p), args, tags: tags_in(arguments) })
}

// ---------------------------------------------------------------------------
// Batches
// ---------------------------------------------------------------------------

/// The `facts[i]: ` prefix of the messages about item `i`.
pub open spec fn fact_prefix(i: nat) -> Seq<char> {
    "facts["@ + decimal(i) + "]: "@
}

/// The label of the args array of item `i`.
pub open spec fn args_label(i: nat) -> Seq<char> {
    "facts["@ + decimal(i) + "].args"@
}

/// Why item `i` of a batch is refused, if it is.
pub open spec fn fact_item_error(item: JsonValue, i: nat, derived: Seq<String>) -> Option<Seq<char>> {
    let p = fact_prefix(i);
    match item {
        JsonValue::Object(m) => match member_text(m@, "predicate"@) {
            None => Some(p + "missing predicate"@),
            Some(q) => if is_derived(derived, q) {
                Some(p + "cannot create derived fact. '"@ + q + "' is automatically generated from PDS records."@)
            } else if !(lookup_member(m@, "args"@) matches Some(v) && v.items() is Some) {
                Some(p + "missing args"@)
            } else {
                args_error(m@, args_label(i))
            },
        },
        _ => Some(p + "expected object"@),
    }
}

/// The items of the `facts` argument, when it is an array.
pub open spec fn fact_items(m: Seq<(String, JsonValue)>) -> Option<Seq<JsonValue>> {
    match lookup_member(m, "facts"@) {
        Some(v) => v.items(),
        None => None,
    }
}

/// Why a batch of facts is refused as a whole, if it is.
pub open spec fn fact_batch_error(m: Seq<(String, JsonValue)>) -> Option<Seq<char>> {
    match fact_items(m) {
        None => Some("Missing required parameter: facts"@),
        Some(items) => if items.len() == 0 {
            Some("facts array cannot be empty"@)
        } else if items.len() > MAX_BATCH_SIZE {
            Some("Batch size "@ + decimal(items.len()) + " exceeds maximum of 100"@)
        } else {
            None
        },
    }
}

/// Item `i` is taken, as `f`.
pub open spec fn fact_item_taken(item: JsonValue, i: int, derived: Seq<String>, f: FactDraft) -> bool {
    &&& fact_item_error(item, i as nat, derived) is None
    &&& item matches JsonValue::Object(m) && fact_from(f, m@)
}

fn prefixed_message(i: usize, rest: &str) -> (r: String)
    ensures
        r@ == fact_prefix(i as nat) + rest@,
{
    let mut msg = String::from_str("facts[");
    let d = decimal_string(i as u64);
    msg.append(d.as_str());
    msg.append("]: ");
    msg.append(rest);
    msg
}

fn fact_item(item: &JsonValue, i: usize, derived: &Vec<String>) -> (r: Result<FactDraft, CallToolResult>)
    ensures
        match r {
            Ok(f) => fact_item_taken(*item, i as int, derived@, f),
            Err(e) => fact_item_error(*item, i as nat, derived@) is Some && error_text(e) == fact_item_error(
                *item,
                i as nat,
                derived@,
            ),
        },
{
    match item {
        JsonValue::Object(m) => {
            let p = match member_str(m, "predicate") {
                Some(p) => p,
                None => {
                    return Err(fail(prefixed_message(i, "missing predicate")));
                },
            };
            if derived_in(derived, p) {
                let mut msg = prefixed_message(i, "cannot create derived fact. '");
                msg.append(p);
                msg.append("' is automatically generated from PDS records.");
                return Err(fail(msg));
            }
            let a = match member(m, "args") {
                Some(v) => match v.as_array() {
                    Some(a) => a,
                    None => {
                        return Err(fail(prefixed_message(i, "missing args")));
                    },
                },
                None => {
                    return Err(fail(prefixed_message(i, "missing args")));
                },
            };
            let mut label = String::from_str("facts[");
            let d = decimal_string(i as u64);
            label.append(d.as_str());
            label.append("].args");
            let args = match string_args(a, label.as_str()) {
                Ok(v) => v,
                Err(e) => {
                    return Err(e);
                },
            };
            Ok(FactDraft { predicate: String::from_str(p), args, tags: tags_in(m) })
        },
        _ => Err(fail(prefixed_message(i, "expected object"))),
    }
}

/// Check the arguments of a batch of new facts and draft them all; the
/// first refused item refuses the batch.
pub fn fact_batch(arguments: &Vec<(String, JsonValue)>, derived: &Vec<String>) -> (r: Result<Vec<FactDraft>, CallToolResult>)
    ensures
        match r {
            Ok(v) => fact_batch_error(arguments@) is None && v@.len() == fact_items(arguments@)->0.len()
                && forall|i: int|
                0 <= i < v@.len() ==> fact_item_taken(fact_items(arguments@)->0[i], i, derived@, #[trigger] v@[i]),
            Err(e) => error_text(e) == fact_batch_error(arguments@) && fact_batch_error(arguments@) is Some || (
            fact_batch_error(arguments@) is None && exists|i: int|
                0 <= i < fact_items(arguments@)->0.len() && (forall|j: int|
                    0 <= j < i ==> (#[trigger] fact_item_error(fact_items(arguments@)->0[j], j as nat, derived@))
                        is None) && fact_item_error(fact_items(arguments@)->0[i], i as nat, derived@) is Some
                    && error_text(e) == fact_item_error(fact_items(arguments@)->0[i], i as nat, derived@)),
        },
{
    let items = match member(arguments, "facts") {
        Some(v) => match v.as_array() {
            Some(a) => a,
            None => {
                return Err(fail(String::from_str("Missing required parameter: facts")));
            },
        },
        None => {
            return Err(fail(String::from_str("Missing required parameter: facts")));
        },
    };
    let ghost list = fact_items(arguments@)->0;
    assert(list == items@);
    if items.len() == 0 {
        return Err(fail(String::from_str("facts array cannot be empty")));
    }
    if items.len() > MAX_BATCH_SIZE {
        let mut msg = String::from_str("Batch size ");
        let d = decimal_string(items.len() as u64);
        msg.append(d.as_str());
        msg.append(" exceeds maximum of 100");
        return Err(fail(msg));
    }
    let mut out: Vec<FactDraft> = Vec::new();
    let mut i: usize = 0;
    while i < items.len()
        invariant
            i <= items@.len(),
            list == items@,
            list == fact_items(arguments@)->0,
            fact_batch_error(arguments@) is None,
            out@.len() == i,
            forall|j: int| 0 <= j < i ==> fact_item_taken(list[j], j, derived@, #[trigger] out@[j]),
        decreases items.len() - i,
    {
        match fact_item(&items[i], i, derived) {
            Ok(f) => {
                let ghost before = out@;
                out.push(f);
                proof {
                    assert forall|j: int| 0 <= j < i + 1 implies fact_item_taken(list[j], j, derived@, #[trigger] out@[j]) by {
                        if j < i {
                            assert(out@[j] == before[j]);
                        }
                    }
                }
            },
            Err(e) => {
                proof {
                    assert forall|j: int| 0 <= j < i implies (#[trigger] fact_item_error(list[j], j as nat, derived@)) is None by {
                        assert(fact_item_taken(list[j], j, derived@, out@[j]));
                    }
                }
                return Err(e);
            },
        }
        i = i + 1;
    }
    Ok(out)
}

// ---------------------------------------------------------------------------
// Updates and expiry
// ---------------------------------------------------------------------------

/// Why the arguments of an update are refused before the old fact is read.
pub open spec fn fact_update_error(m: Seq<(String, JsonValue)>) -> Option<Seq<char>> {
    if member_text(m, "rkey"@) is None {
        Some("Missing required parameter: rkey"@)
    } else if member_text(m, "predicate"@) is None {
        Some("Missing required parameter: predicate"@)
    } else if !(lookup_member(m, "args"@) matches Some(v) && v.items() is Some) {
        Some("Missing required parameter: args"@)
    } else {
        args_error(m, "args"@)
    }
}

/// Check the arguments of an update: the record key of the fact it
/// replaces and the draft of the new fact.
pub fn check_fact_update(arguments: &Vec<(String, JsonValue)>) -> (r: Result<(String, FactDraft), CallToolResult>)
    ensures
        match r {
            Ok((k, f)) => fact_update_error(arguments@) is None && member_text(arguments@, "rkey"@) == Some(k@)
                && fact_from(f, arguments@),
            Err(e) => fact_update_error(arguments@) is Some && error_text(e) == fact_update_error(arguments@),
        },
{
    let rkey = match member_str(arguments, "rkey") {
        Some(k) => k,
        None => {
            return Err(fail(String::from_str("Missing required parameter: rkey")));
        },
    };
    let p = match member_str(arguments, "predicate") {
        Some(p) => p,
        None => {
            return Err(fail(String::from_str("Missing required parameter: predicate")));
        },
    };
    let a = match member(arguments, "args") {
        Some(v) => match v.as_array() {
            Some(a) => a,
            None => {
                return Err(fail(String::from_str("Missing required parameter: args")));
            },
        },
        None => {
            return Err(fail(String::from_str("Missing required parameter: args")));
        },
    };
    let args = match string_args(a, "args") {
        Ok(v) => v,
        Err(e) => {
            return Err(e);
        },
    };
    Ok((String::from_str(rkey), FactDraft { predicate: String::from_str(p), args, tags: tags_in(arguments) }))
}

/// Why an update of a fact with predicate `old` is refused: a derived fact
/// cannot be replaced by hand.
pub fn derived_update_check(old: &str, derived: &Vec<String>) -> (r: Result<(), String>)
    ensures
        r is Ok <==> !is_derived(derived@, old@),
        r matches Err(e) ==> e@ == "Cannot update derived fact. '"@ + old@ + "' is automatically generated from PDS records."@,
{
    if derived_in(derived, old) {
        let mut msg = String::from_str("Cannot update derived fact. '");
        msg.append(old);
        msg.append("' is automatically generated from PDS records.");
        Err(msg)
    } else {
        Ok(())
    }
}

/// How a fact's expiry is asked for: a timestamp text (the caller parses
/// it, and falls back on the time to live when it does not parse), and a
/// positive time to live in seconds.
pub struct ExpiryRequest {
    pub at: Option<String>,
    pub ttl_seconds: Option<i64>,
}

/// The expiry arguments: a non-empty `expires_at` text, and a positive
/// integer `ttl_seconds`.
pub open spec fn expiry_of(m: Seq<(String, JsonValue)>, r: ExpiryRequest) -> bool {
    &&& match member_text(m, "expires_at"@) {
        Some(t) => if t.len() > 0 {
            r.at matches Some(a) && a@ == t
        } else {
            r.at is None
        },
        None => r.at is None,
    }
    &&& r.ttl_seconds == match lookup_member(m, "ttl_seconds"@) {
        Some(v) => match v.i64_of() {
            Some(n) => if n > 0 {
                Some(n)
            } else {
                None
            },
            None => None,
        },
        None => None,
    }
}

/// Read how a fact's expiry is asked for.
pub fn expiry_request(arguments: &Vec<(String, JsonValue)>) -> (r: ExpiryRequest)
    ensures
        expiry_of(arguments@, r),
{
    let at = match member_str(arguments, "expires_at") {
        Some(t) => if t.unicode_len() > 0 {
            Some(String::from_str(t))
        } else {
            None
        },
        None => None,
    };
    let ttl_seconds = match member(arguments, "ttl_seconds") {
        Some(v) => match v.as_i64() {
            Some(n) => if n > 0 {
                Some(n)
            } else {
                None
            },
            None => None,
        },
        None => None,
    };
    ExpiryRequest { at, ttl_seconds }
}

} // verus!
