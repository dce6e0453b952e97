//! Fact declarations: the schema of a predicate (its arguments and their
//! types) before any fact of it exists.  The checks on the tool arguments
//! that create or change one, and the filters of their listing.

use vstd::prelude::*;
use crate::text::{decimal, decimal_string, utf8_len, contains_ignoring_case, contains_ignore_case};
use crate::strset::{string_views, position_in};
use crate::protocol::{CallToolResult, ToolContent};
use crate::json::{
    JsonValue, lookup_member, member, member_text, member_str, short_strings, collect_short_strings,
    string_opt,
};
use crate::summary::{take_chars, truncate_string};
use crate::facts::error_text;

verus! {

/// The longest predicate name, in bytes.
pub const MAX_PREDICATE_LEN: usize = 64;

/// The most arguments a predicate can have.
pub const MAX_DECL_ARGS: usize = 10;

/// One argument of a declared predicate.
#[derive(Debug)]
pub struct DeclArg {
    pub name: String,
    /// The argument's type; `symbol` unless given.
    pub arg_type: String,
    pub description: Option<String>,
}

/// What a declaration holds besides its timestamps.
#[derive(Debug)]
pub struct DeclarationDraft {
    pub predicate: String,
    pub args: Vec<DeclArg>,
    pub description: String,
    pub tags: Vec<String>,
}

fn fail(msg: String) -> (r: CallToolResult)
    ensures
        error_text(r) == Some(msg@),
{
    CallToolResult::error(msg)
}

// ---------------------------------------------------------------------------
// Arguments of a predicate
// ---------------------------------------------------------------------------

/// The `args[j]: ` prefix of the messages about argument `j`.
pub open spec fn arg_prefix(j: nat) -> Seq<char> {
    "args["@ + decimal(j) + "]: "@
}

/// Why argument `j` is refused, if it is: it is not an object, or it has
/// no name.
pub open spec fn arg_error(v: JsonValue, j: nat) -> Option<Seq<char>> {
    match v {
        JsonValue::Object(m) => if member_text(m@, "name"@) is None {
            Some(arg_prefix(j) + "missing name"@)
        } else {
            None
        },
        _ => Some(arg_prefix(j) + "expected object"@),
    }
}

/// The first refused argument from position `j` on, with why.
pub open spec fn first_arg_error(items: Seq<JsonValue>, j: nat) -> Option<Seq<char>>
    decreases items.len() - j,
{
    if j >= items.len() {
        None
    } else {
        match arg_error(items[j as int], j) {
            Some(e) => Some(e),
            None => first_arg_error(items, j + 1),
        }
    }
}

/// `a` is the argument that `v` describes: its name, its type (`symbol`
/// when none is given) and its description.
pub open spec fn arg_is(a: DeclArg, v: JsonValue) -> bool {
    &&& v matches JsonValue::Object(m)
    &&& Some(a.name@) == member_text(m@, "name"@)
    &&& a.arg_type@ == match member_text(m@, "type"@) {
        Some(t) => t,
        None => "symbol"@,
    }
    &&& string_opt(a.description) == member_text(m@, "description"@)
}

fn arg_message(j: usize, rest: &str) -> (r: String)
    ensures
        r@ == arg_prefix(j as nat) + rest@,
{
    let mut msg = String::from_str("args[");
    let d = decimal_string(j as u64);
    msg.append(d.as_str());
    msg.append("]: ");
    msg.append(rest);
    msg
}

fn parse_arg(v: &JsonValue, j: usize) -> (r: Result<DeclArg, CallToolResult>)
    ensures
        match r {
            Ok(a) => arg_error(*v, j as nat) is None && arg_is(a, *v),
            Err(e) => arg_error(*v, j as nat) is Some && error_text(e) == arg_error(*v, j as nat),
        },
{
    match v {
        JsonValue::Object(m) => {
            let name = match member_str(m, "name") {
                Some(n) => n,
                None => {
                    return Err(fail(arg_message(j, "missing name")));
                },
            };
            let arg_type = match member_str(m, "type") {
                Some(t) => String::from_str(t),
                None => String::from_str("symbol"),
            };
            let description = match member_str(m, "description") {
                Some(d) => Some(String::from_str(d)),
                None => None,
            };
            Ok(DeclArg { name: String::from_str(name), arg_type, description })
        },
        _ => Err(fail(arg_message(j, "expected object"))),
    }
}

/// The arguments of a predicate, from an array of objects with a `name`, an
/// optional `type` and an optional `description`; the first refused
/// element refuses them all.
pub fn parse_args(arr: &[JsonValue]) -> (r: Result<Vec<DeclArg>, CallToolResult>)
    ensures
        match r {
            Ok(v) => first_arg_error(arr@, 0) is None && v@.len() == arr@.len() && forall|j: int|
                0 <= j < arr@.len() ==> arg_is(#[trigger] v@[j], arr@[j]),
            Err(e) => first_arg_error(arr@, 0) is Some && error_text(e) == first_arg_error(arr@, 0),
        },
{
    let mut out: Vec<DeclArg> = Vec::new();
    let mut j: usize = 0;
    while j < arr.len()
        invariant
            j <= arr@.len(),
            out@.len() == j,
            first_arg_error(arr@, 0) == first_arg_error(arr@, j as nat),
            forall|k: int| 0 <= k < j ==> arg_is(#[trigger] out@[k], arr@[k]),
        decreases arr.len() - j,
    {
        match parse_arg(&arr[j], j) {
            Ok(a) => {
                let ghost before = out@;
                out.push(a);
                proof {
                    assert forall|k: int| 0 <= k < j + 1 implies arg_is(#[trigger] out@[k], arr@[k]) by {
                        if k < j {
                            assert(out@[k] == before[k]);
                        }
                    }
                }
            },
            Err(e) => {
                return Err(e);
            },
        }
        j = j + 1;
    }
    Ok(out)
}

// ---------------------------------------------------------------------------
// A new declaration
// ---------------------------------------------------------------------------

/// The member `args`, when it is an array.
pub open spec fn args_items(m: Seq<(String, JsonValue)>) -> Option<Seq<JsonValue>> {
    match lookup_member(m, "args"@) {
        Some(v) => v.items(),
        None => None,
    }
}

/// The member `tags`, when it is an array.
pub open spec fn tags_given(m: Seq<(String, JsonValue)>) -> bool {
    lookup_member(m, "tags"@) matches Some(v) && v.items() is Some
}

/// The end of the message on a predicate name of `n` bytes.
pub open spec fn too_long(n: nat) -> Seq<char> {
    decimal(n) + " chars (max 64)"@
}

/// The end of the message on `n` arguments.
pub open spec fn too_many(n: nat) -> Seq<char> {
    decimal(n) + " (max 10)"@
}

/// Why the arguments of a new declaration are refused, if they are.
pub open spec fn new_declaration_error(m: Seq<(String, JsonValue)>) -> Option<Seq<char>> {
    match member_text(m, "predicate"@) {
        None => Some("Missing required parameter: predicate"@),
        Some(p) => if utf8_len(p) > MAX_PREDICATE_LEN {
            Some("Predicate name too long: "@ + too_long(utf8_len(p)))
        } else {
            match args_items(m) {
                None => Some("Missing required parameter: args"@),
                Some(a) => if a.len() > MAX_DECL_ARGS {
                    Some("Too many arguments: "@ + too_many(a.len()))
                } else if first_arg_error(a, 0) is Some {
                    first_arg_error(a, 0)
                } else if member_text(m, "description"@) is None {
                    Some("Missing required parameter: description"@)
                } else {
                    None
                },
            }
        },
    }
}

/// `d` holds the predicate, the arguments, the description cut to 1024
/// characters and the first 20 string tags, each cut to 64 characters.
pub open spec fn declaration_from(d: DeclarationDraft, m: Seq<(String, JsonValue)>) -> bool {
    &&& Some(d.predicate@) == member_text(m, "predicate"@)
    &&& args_items(m) matches Some(a) && d.args@.len() == a.len() && forall|j: int|
        0 <= j < a.len() ==> arg_is(#[trigger] d.args@[j], a[j])
    &&& member_text(m, "description"@) matches Some(t) && d.description@ == take_chars(t, 1024)
    &&& string_views(d.tags@) == short_strings(m, "tags"@, 20, 64)
}

fn count_message(lead: &str, n: usize, tail: &str) -> (r: String)
    ensures
        r@ == lead@ + decimal(n as nat) + tail@,
{
    let mut msg = String::from_str(lead);
    let d = decimal_string(n as u64);
    msg.append(d.as_str());
    msg.append(tail);
    msg
}

fn args_array(m: &Vec<(String, JsonValue)>) -> (r: Option<&Vec<JsonValue>>)
    ensures
        match r {
            Some(a) => args_items(m@) == Some(a@),
            None => args_items(m@) is None,
        },
{
    match member(m, "args") {
        Some(v) => v.as_array(),
        None => None,
    }
}

fn tags_of(m: &Vec<(String, JsonValue)>) -> (r: Vec<String>)
    ensures
        string_views(r@) == short_strings(m@, "tags"@, 20, 64),
{
    match member(m, "tags") {
        Some(v) => match v.as_array() {
            Some(a) => collect_short_strings(a, 20, 64),
            None => {
                let e: Vec<String> = Vec::new();
                assert(string_views(e@) =~= Seq::<Seq<char>>::empty());
                e
            },
        },
        None => {
            let e: Vec<String> = Vec::new();
            assert(string_views(e@) =~= Seq::<Seq<char>>::empty());
            e
        },
    }
}

/// Check the arguments of a new declaration and draft it.
pub fn declaration_draft(arguments: &Vec<(String, JsonValue)>) -> (r: Result<DeclarationDraft, CallToolResult>)
    ensures
        match r {
            Ok(d) => new_declaration_error(arguments@) is None && declaration_from(d, arguments@),
            Err(e) => new_declaration_error(arguments@) is Some && error_text(e) == new_declaration_error(
                arguments@,
            ),
        },
{
    let p = match member_str(arguments, "predicate") {
        Some(p) => p,
        None => {
            return Err(fail(String::from_str("Missing required parameter: predicate")));
        },
    };
    let n = p.as_bytes().len();
    assert(n == utf8_len(p@));
    if n > MAX_PREDICATE_LEN {
        return Err(fail(count_message("Predicate name too long: ", n, " chars (max 64)")));
    }
    let a = match args_array(arguments) {
        Some(a) => a,
        None => {
            return Err(fail(String::from_str("Missing required parameter: args")));
        },
    };
    if a.len() > MAX_DECL_ARGS {
        return Err(fail(count_message("Too many arguments: ", a.len(), " (max 10)")));
    }
    let sl = a.as_slice();
    assert(sl@ == a@);
    let args = match parse_args(sl) {
        Ok(v) => v,
        Err(e) => {
            return Err(e);
        },
    };
    let description = match member_str(arguments, "description") {
        Some(d) => truncate_string(d, 1024),
        None => {
            return Err(fail(String::from_str("Missing required parameter: description")));
        },
    };
    Ok(DeclarationDraft { predicate: String::from_str(p), args, description, tags: tags_of(arguments) })
}

// ---------------------------------------------------------------------------
// Batches
// ---------------------------------------------------------------------------

/// The `declarations[i]` that leads the messages about item `i`.
pub open spec fn decl_prefix(i: nat) -> Seq<char> {
    "declarations["@ + decimal(i) + "]"@
}

/// Why item `i` of a batch is refused, if it is; a refused argument is
/// reported under the item's path.
pub open spec fn decl_item_error(item: JsonValue, i: nat) -> Option<Seq<char>> {
    let p = decl_prefix(i);
    match item {
        JsonValue::Object(m) => match member_text(m@, "predicate"@) {
            None => Some(p + ": missing predicate"@),
            Some(q) => if utf8_len(q) > MAX_PREDICATE_LEN {
                Some(p + ": predicate name too long: "@ + too_long(utf8_len(q)))
            } else {
                match args_items(m@) {
                    None => Some(p + ": missing args"@),
                    Some(a) => if a.len() > MAX_DECL_ARGS {
                        Some(p + ": too many arguments: "@ + too_many(a.len()))
                    } else {
                        match first_arg_error(a, 0) {
                            Some(e) => Some(p + "."@ + e),
                            None => if member_text(m@, "description"@) is None {
                                Some(p + ": missing description"@)
                            } else {
                                None
                            },
                        }
                    },
                }
            },
        },
        _ => Some(p + ": expected object"@),
    }
}

/// The items of the `declarations` argument, when it is an array.
pub open spec fn decl_items(m: Seq<(String, JsonValue)>) -> Option<Seq<JsonValue>> {
    match lookup_member(m, "declarations"@) {
        Some(v) => v.items(),
        None => None,
    }
}

/// Why a batch is refused as a whole, if it is.
pub open spec fn decl_batch_error(m: Seq<(String, JsonValue)>) -> Option<Seq<char>> {
    match decl_items(m) {
        None => Some("Missing required parameter: declarations"@),
        Some(items) => if items.len() == 0 {
            Some("declarations array cannot be empty"@)
        } else {
            None
        },
    }
}

/// Item `i` is taken, as `d`.
pub open spec fn decl_item_taken(item: JsonValue, i: int, d: DeclarationDraft) -> bool {
    &&& decl_item_error(item, i as nat) is None
    &&& item matches JsonValue::Object(m) && declaration_from(d, m@)
}

fn item_message(i: usize, rest: &str) -> (r: String)
    ensures
        r@ == decl_prefix(i as nat) + rest@,
{
    let mut msg = String::from_str("declarations[");
    let d = decimal_string(i as u64);
    msg.append(d.as_str());
    msg.append("]");
    msg.append(rest);
    msg
}

fn decl_item(item: &JsonValue, i: usize) -> (r: Result<DeclarationDraft, CallToolResult>)
    ensures
        match r {
            Ok(d) => decl_item_taken(*item, i as int, d),
            Err(e) => decl_item_error(*item, i as nat) is Some && error_text(e) == decl_item_error(
                *item,
                i as nat,
            ),
        },
{
    match item {
        JsonValue::Object(m) => {
            let p = match member_str(m, "predicate") {
                Some(p) => p,
                None => {
                    return Err(fail(item_message(i, ": missing predicate")));
                },
            };
            let n = p.as_bytes().len();
            assert(n == utf8_len(p@));
            if n > MAX_PREDICATE_LEN {
                let mut msg = item_message(i, ": predicate name too long: ");
                let d = decimal_string(n as u64);
                msg.append(d.as_str());
                msg.append(" chars (max 64)");
                return Err(fail(msg));
            }
            let a = match args_array(m) {
                Some(a) => a,
                None => {
                    return Err(fail(item_message(i, ": missing args")));
                },
            };
            if a.len() > MAX_DECL_ARGS {
                let mut msg = item_message(i, ": too many arguments: ");
                let d = decimal_string(a.len() as u64);
                msg.append(d.as_str());
                msg.append(" (max 10)");
                return Err(fail(msg));
            }
            let sl = a.as_slice();
            assert(sl@ == a@);
            let args = match parse_args(sl) {
                Ok(v) => v,
                Err(e) => {
                    let text = match &e.content[0] {
                        ToolContent::Text { text } => text,
                    };
                    let msg = item_message(i, ".");
                    let mut msg = msg;
                    msg.append(text.as_str());
                    return Err(fail(msg));
                },
            };
            let description = match member_str(m, "description") {
                Some(d) => truncate_string(d, 1024),
                None => {
                    return Err(fail(item_message(i, ": missing description")));
                },
            };
            Ok(DeclarationDraft { predicate: String::from_str(p), args, description, tags: tags_of(m) })
        },
        _ => Err(fail(item_message(i, ": expected object"))),
    }
}

/// Check the arguments of a batch of new declarations and draft them all;
/// the first refused item refuses the batch.
pub fn declaration_batch(arguments: &Vec<(String, JsonValue)>) -> (r: Result<Vec<DeclarationDraft>, CallToolResult>)
    ensures
        match r {
            Ok(v) => decl_batch_error(arguments@) is None && v@.len() == decl_items(arguments@)->0.len()
                && forall|i: int|
                0 <= i < v@.len() ==> decl_item_taken(decl_items(arguments@)->0[i], i, #[trigger] v@[i]),
            Err(e) => error_text(e) == decl_batch_error(arguments@) && decl_batch_error(arguments@) is Some || (
            decl_batch_error(arguments@) is None && exists|i: int|
                0 <= i < decl_items(arguments@)->0.len() && (forall|j: int|
                    0 <= j < i ==> (#[trigger] decl_item_error(decl_items(arguments@)->0[j], j as nat)) is None)
                    && decl_item_error(decl_items(arguments@)->0[i], i as nat) is Some && error_text(e)
                    == decl_item_error(decl_items(arguments@)->0[i], i as nat)),
        },
{
    let items = match member(arguments, "declarations") {
        Some(v) => match v.as_array() {
            Some(a) => a,
            None => {
                return Err(fail(String::from_str("Missing required parameter: declarations")));
            },
        },
        None => {
            return Err(fail(String::from_str("Missing required parameter: declarations")));
        },
    };
    let ghost list = decl_items(arguments@)->0;
    assert(list == items@);
    if items.len() == 0 {
        return Err(fail(String::from_str("declarations array cannot be empty")));
    }
    let mut out: Vec<DeclarationDraft> = Vec::new();
    let mut i: usize = 0;
    while i < items.len()
        invariant
            i <= items@.len(),
            list == items@,
            list == decl_items(arguments@)->0,
            decl_batch_error(arguments@) is None,
            out@.len() == i,
            forall|j: int| 0 <= j < i ==> decl_item_taken(list[j], j, #[trigger] out@[j]),
        decreases items.len() - i,
    {
        match decl_item(&items[i], i) {
            Ok(d) => {
                let ghost before = out@;
                out.push(d);
                proof {
                    assert forall|j: int| 0 <= j < i + 1 implies decl_item_taken(list[j], j, #[trigger] out@[j]) by {
                        if j < i {
                            assert(out@[j] == before[j]);
                        }
                    }
                }
            },
            Err(e) => {
                proof {
                    assert forall|j: int| 0 <= j < i implies (#[trigger] decl_item_error(list[j], j as nat)) is None by {
                        assert(decl_item_taken(list[j], j, out@[j]));
                    }
                }
                return Err(e);
            },
        }
        i = i + 1;
    }
    Ok(out)
}

// ---------------------------------------------------------------------------
// Updates
// ---------------------------------------------------------------------------

/// The fields an update changes, in order: `args`, `description`, `tags`.
pub open spec fn decl_update_changes(m: Seq<(String, JsonValue)>) -> Seq<Seq<char>> {
    let a = if args_items(m) is Some { seq!["args"@] } else { Seq::<Seq<char>>::empty() };
    let d = if member_text(m, "description"@) is Some { a.push("description"@) } else { a };
    if tags_given(m) { d.push("tags"@) } else { d }
}

/// Why an update is refused, if it is: too many or refused arguments, or
/// nothing to change.
pub open spec fn decl_update_error(m: Seq<(String, JsonValue)>) -> Option<Seq<char>> {
    match args_items(m) {
        Some(a) => if a.len() > MAX_DECL_ARGS {
            Some("Too many arguments: "@ + too_many(a.len()))
        } else {
            first_arg_error(a, 0)
        },
        None => if decl_update_changes(m).len() == 0 {
            Some("No changes specified"@)
        } else {
            None
        },
    }
}

/// `after` is `before` with the fields the arguments give replaced; the
/// predicate stays.
pub open spec fn updated_declaration(before: DeclarationDraft, after: DeclarationDraft, m: Seq<(String, JsonValue)>) -> bool {
    &&& after.predicate == before.predicate
    &&& match args_items(m) {
        Some(a) => after.args@.len() == a.len() && forall|j: int|
            0 <= j < a.len() ==> arg_is(#[trigger] after.args@[j], a[j]),
        None => after.args == before.args,
    }
    &&& after.description@ == match member_text(m, "description"@) {
        Some(t) => take_chars(t, 1024),
        None => before.description@,
    }
    &&& string_views(after.tags@) == if tags_given(m) {
        short_strings(m, "tags"@, 20, 64)
    } else {
        string_views(before.tags@)
    }
}

/// Apply the changes of an update to a declaration: the changed
/// declaration and the names of the changed fields, or why the update is
/// refused.
pub fn declaration_update(current: DeclarationDraft, arguments: &Vec<(String, JsonValue)>) -> (r: Result<(DeclarationDraft, Vec<&'static str>), CallToolResult>)
    ensures
        match r {
            Ok((d, changes)) => decl_update_error(arguments@) is None && updated_declaration(current, d, arguments@)
                && changes@.map_values(|c: &str| c@) == decl_update_changes(arguments@),
            Err(e) => decl_update_error(arguments@) is Some && error_text(e) == decl_update_error(arguments@),
        },
{
    let mut d = current;
    let mut changes: Vec<&'static str> = Vec::new();
    let ghost m = arguments@;
    match args_array(arguments) {
        Some(a) => {
            if a.len() > MAX_DECL_ARGS {
                return Err(fail(count_message("Too many arguments: ", a.len(), " (max 10)")));
            }
            let sl = a.as_slice();
            assert(sl@ == a@);
            match parse_args(sl) {
                Ok(v) => {
                    d.args = v;
                    changes.push("args");
                },
                Err(e) => {
                    return Err(e);
                },
            }
        },
        None => {},
    }
    let ghost c0 = changes@.map_values(|c: &str| c@);
    assert(c0 =~= if args_items(m) is Some { seq!["args"@] } else { Seq::<Seq<char>>::empty() });
    match member_str(arguments, "description") {
        Some(t) => {
            d.description = truncate_string(t, 1024);
            changes.push("description");
        },
        None => {},
    }
    let ghost c1 = changes@.map_values(|c: &str| c@);
    assert(c1 =~= if member_text(m, "description"@) is Some { c0.push("description"@) } else { c0 });
    match member(arguments, "tags") {
        Some(v) => match v.as_array() {
            Some(a) => {
                d.tags = collect_short_strings(a, 20, 64);
                changes.push("tags");
            },
            None => {},
        },
        None => {},
    }
    assert(changes@.map_values(|c: &str| c@) =~= decl_update_changes(m));
    if changes.len() == 0 {
        return Err(fail(String::from_str("No changes specified")));
    }
    Ok((d, changes))
}

// ---------------------------------------------------------------------------
// Listings
// ---------------------------------------------------------------------------

/// A declaration is listed: it carries the tag asked for, if any, and its
/// predicate contains the text asked for, ignoring case, if any.
pub open spec fn declaration_listed(d: DeclarationDraft, tag: Option<Seq<char>>, predicate: Option<Seq<char>>) -> bool {
    &&& (tag matches Some(t) ==> string_views(d.tags@).contains(t))
    &&& (predicate matches Some(p) ==> contains_ignoring_case(d.predicate@, p))
}

/// Whether a declaration is listed for the given filters.
pub fn declaration_is_listed(d: &DeclarationDraft, tag: Option<&str>, predicate: Option<&str>) -> (r: bool)
    ensures
        r == declaration_listed(
            *d,
            match tag {
                Some(t) => Some(t@),
                None => None,
            },
            match predicate {
                Some(p) => Some(p@),
                None => None,
            },
        ),
{
    match tag {
        Some(t) => if position_in(&d.tags, t).is_none() {
            return false;
        },
        None => {},
    }
    match predicate {
        Some(p) => contains_ignore_case(d.predicate.as_str(), p),
        None => true,
    }
}

// ---------------------------------------------------------------------------
// Limits
// ---------------------------------------------------------------------------

/// The limits every stored declaration keeps: a predicate name of at most
/// 64 bytes, at most 10 arguments, a description of at most 1024
/// characters, and at most 20 tags of at most 64 characters each.
pub open spec fn within_limits(d: DeclarationDraft) -> bool {
    &&& utf8_len(d.predicate@) <= MAX_PREDICATE_LEN
    &&& d.args@.len() <= MAX_DECL_ARGS
    &&& d.description@.len() <= 1024
    &&& d.tags@.len() <= 20
    &&& forall|i: int| 0 <= i < d.tags@.len() ==> (#[trigger] d.tags@[i])@.len() <= 64
}

proof fn lemma_short_strings_bounded(m: Seq<(String, JsonValue)>, tags: Seq<String>)
    requires
        string_views(tags) == short_strings(m, "tags"@, 20, 64),
    ensures
        tags.len() <= 20,
        forall|i: int| 0 <= i < tags.len() ==> (#[trigger] tags[i])@.len() <= 64,
{
    let s = short_strings(m, "tags"@, 20, 64);
    assert(tags.len() == s.len());
    assert forall|i: int| 0 <= i < tags.len() implies (#[trigger] tags[i])@.len() <= 64 by {
        assert(string_views(tags)[i] == tags[i]@);
    }
}

/// A new declaration that the checks accept keeps within the limits.
pub proof fn law_new_declaration_within_limits(m: Seq<(String, JsonValue)>, d: DeclarationDraft)
    requires
        new_declaration_error(m) is None,
        declaration_from(d, m),
    ensures
        within_limits(d),
{
    lemma_short_strings_bounded(m, d.tags@);
}

/// Every declaration of a batch that the checks accept keeps within the
/// limits.
pub proof fn law_batch_declaration_within_limits(item: JsonValue, i: int, d: DeclarationDraft)
    requires
        decl_item_taken(item, i, d),
    ensures
        within_limits(d),
{
    let m = item->Object_0@;
    lemma_short_strings_bounded(m, d.tags@);
}

/// An update that the checks accept keeps a declaration within the limits.
pub proof fn law_update_keeps_limits(before: DeclarationDraft, after: DeclarationDraft, m: Seq<(String, JsonValue)>)
    requires
        within_limits(before),
        decl_update_error(m) is None,
        updated_declaration(before, after, m),
    ensures
        within_limits(after),
{
    if tags_given(m) {
        lemma_short_strings_bounded(m, after.tags@);
    } else {
        assert(after.tags@.len() == string_views(after.tags@).len());
        assert(before.tags@.len() == string_views(before.tags@).len());
        assert forall|i: int| 0 <= i < after.tags@.len() implies (#[trigger] after.tags@[i])@.len() <= 64 by {
            assert(string_views(after.tags@)[i] == string_views(before.tags@)[i]);
            assert(before.tags@[i]@.len() <= 64);
        }
    }
}

} // verus!
