//! JSON values as the tool results and arguments carry them.
//!
//! A `JsonValue` holds what a parsed JSON document holds: objects keep their
//! members in the order the parser gives them, numbers keep the integer they
//! denote or, for a fraction, the text the serializer prints for it.

use vstd::prelude::*;
use crate::text::{str_eq, decimal, decimal_string, join_with, join_strings};
use crate::summary::{truncated_with_ellipsis, truncate_for_summary, take_chars, truncate_string};
use crate::protocol::CallToolResult;

verus! {

/// A JSON number.
#[derive(Debug, Clone, PartialEq)]
pub enum JsonNumber {
    /// A non-negative integer.
    Unsigned(u64),
    /// A signed integer (the parser uses it for negative ones).
    Signed(i64),
    /// A number with a fraction or exponent, held as the text the JSON
    /// serializer prints for it.
    Float(String),
}

/// A JSON value.
#[derive(Debug, PartialEq)]
pub enum JsonValue {
    Null,
    Bool(bool),
    Number(JsonNumber),
    String(String),
    Array(Vec<JsonValue>),
    /// The members of an object, in order.
    Object(Vec<(String, JsonValue)>),
}

/// The value of the first member named `key`.
pub open spec fn lookup_member(members: Seq<(String, JsonValue)>, key: Seq<char>) -> Option<JsonValue>
    decreases members.len(),
{
    if members.len() == 0 {
        None
    } else if members[0].0@ == key {
        Some(members[0].1)
    } else {
        lookup_member(members.drop_first(), key)
    }
}

/// The text of a boolean as JSON writes it.
pub open spec fn bool_text(b: bool) -> Seq<char> {
    if b { "true"@ } else { "false"@ }
}

/// The text of a number as JSON writes it.
pub open spec fn number_text(n: JsonNumber) -> Seq<char> {
    match n {
        JsonNumber::Unsigned(u) => decimal(u as nat),
        JsonNumber::Signed(i) => if i < 0 {
            "-"@ + decimal((-i) as nat)
        } else {
            decimal(i as nat)
        },
        JsonNumber::Float(t) => t@,
    }
}

impl JsonValue {
    /// The member `key` of an object; nothing for other values.
    pub open spec fn field(self, key: Seq<char>) -> Option<JsonValue> {
        match self {
            JsonValue::Object(members) => lookup_member(members@, key),
            _ => None,
        }
    }

    /// The value as an unsigned integer, where it is one.
    pub open spec fn u64_of(self) -> Option<u64> {
        match self {
            JsonValue::Number(JsonNumber::Unsigned(u)) => Some(u),
            JsonValue::Number(JsonNumber::Signed(i)) => if i >= 0 {
                Some(i as u64)
            } else {
                None
            },
            _ => None,
        }
    }

    /// The value as a signed integer, where it is an integer that fits.
    pub open spec fn i64_of(self) -> Option<i64> {
        match self {
            JsonValue::Number(JsonNumber::Unsigned(u)) => if u <= i64::MAX as u64 {
                Some(u as i64)
            } else {
                None
            },
            JsonValue::Number(JsonNumber::Signed(i)) => Some(i),
            _ => None,
        }
    }

    /// The elements of an array.
    pub open spec fn items(self) -> Option<Seq<JsonValue>> {
        match self {
            JsonValue::Array(a) => Some(a@),
            _ => None,
        }
    }

    /// The text of a string, boolean or number, as a summary shows it.
    pub open spec fn scalar_text(self) -> Option<Seq<char>> {
        match self {
            JsonValue::String(s) => Some(s@),
            JsonValue::Bool(b) => Some(bool_text(b)),
            JsonValue::Number(n) => Some(number_text(n)),
            _ => None,
        }
    }

    /// The member `key` of an object.
    pub fn get(&self, key: &str) -> (r: Option<&JsonValue>)
        ensures
            match r {
                Some(v) => self.field(key@) == Some(*v),
                None => self.field(key@) is None,
            },
    {
        match self {
            JsonValue::Object(members) => member(members, key),
            _ => None,
        }
    }

    /// The value as an unsigned integer, where it is one.
    pub fn as_u64(&self) -> (r: Option<u64>)
        ensures
            r == self.u64_of(),
    {
        match self {
            JsonValue::Number(JsonNumber::Unsigned(u)) => Some(*u),
            JsonValue::Number(JsonNumber::Signed(i)) => if *i >= 0 {
                Some(*i as u64)
            } else {
                None
            },
            _ => None,
        }
    }

    /// The value as a signed integer, where it is an integer that fits.
    pub fn as_i64(&self) -> (r: Option<i64>)
        ensures
            r == self.i64_of(),
    {
        match self {
            JsonValue::Number(JsonNumber::Unsigned(u)) => if *u <= 9223372036854775807u64 {
                Some(*u as i64)
            } else {
                None
            },
            JsonValue::Number(JsonNumber::Signed(i)) => Some(*i),
            _ => None,
        }
    }

    /// The elements of an array.
    pub fn as_array(&self) -> (r: Option<&Vec<JsonValue>>)
        ensures
            match r {
                Some(a) => self.items() == Some(a@),
                None => self.items() is None,
            },
    {
        match self {
            JsonValue::Array(a) => Some(a),
            _ => None,
        }
    }

    /// The text of a string.
    pub fn as_str(&self) -> (r: Option<&str>)
        ensures
            match r {
                Some(s) => self matches JsonValue::String(t) && t@ == s@,
                None => !(self is String),
            },
    {
        match self {
            JsonValue::String(s) => Some(s.as_str()),
            _ => None,
        }
    }
}

/// The value of the first member named `key`.
pub fn member<'a>(members: &'a Vec<(String, JsonValue)>, key: &str) -> (r: Option<&'a JsonValue>)
    ensures
        match r {
            Some(v) => lookup_member(members@, key@) == Some(*v),
            None => lookup_member(members@, key@) is None,
        },
{
    let mut i: usize = 0;
    assert(members@.skip(0) =~= members@);
    while i < members.len()
        invariant
            i <= members@.len(),
            lookup_member(members@, key@) == lookup_member(members@.skip(i as int), key@),
        decreases members.len() - i,
    {
        assert(members@.skip(i as int)[0] == members@[i as int]);
        if str_eq(members[i].0.as_str(), key) {
            assert(lookup_member(members@.skip(i as int), key@) == Some(members@[i as int].1));
            return Some(&members[i].1);
        }
        assert(members@.skip(i as int).drop_first() =~= members@.skip(i + 1));
        i = i + 1;
    }
    None
}

/// The text of a number as JSON writes it.
pub fn number_string(n: &JsonNumber) -> (r: String)
    ensures
        r@ == number_text(*n),
{
    match n {
        JsonNumber::Unsigned(u) => decimal_string(*u),
        JsonNumber::Signed(i) => if *i < 0 {
            let m: u64 = if *i == i64::MIN {
                9223372036854775808u64
            } else {
                (0 - *i) as u64
            };
            let mut s = String::from_str("-");
            let d = decimal_string(m);
            s.append(d.as_str());
            s
        } else {
            decimal_string(*i as u64)
        },
        JsonNumber::Float(t) => t.clone(),
    }
}

/// The text of a string, boolean or number, as a summary shows it.
pub fn scalar_string(v: &JsonValue) -> (r: Option<String>)
    ensures
        match r {
            Some(s) => v.scalar_text() == Some(s@),
            None => v.scalar_text() is None,
        },
{
    match v {
        JsonValue::String(s) => Some(s.clone()),
        JsonValue::Bool(b) => if *b {
            Some(String::from_str("true"))
        } else {
            Some(String::from_str("false"))
        },
        JsonValue::Number(n) => Some(number_string(n)),
        _ => None,
    }
}

// ---------------------------------------------------------------------------
// Compact JSON text
// ---------------------------------------------------------------------------

/// A lowercase hexadecimal digit, for `0 <= n < 16`.
pub open spec fn hex_digit(n: int) -> char {
    if n < 10 {
        (48 + n) as char
    } else {
        (87 + n) as char
    }
}

/// How one character stands inside a JSON string literal: `"` and `\` are
/// escaped with a backslash; backspace, tab, line feed, form feed and
/// carriage return by their short escapes; the other control characters
/// below U+0020 as `\u00` and two lowercase hex digits; every other
/// character (U+007F, `/` and all non-ASCII ones included) as itself.
pub open spec fn json_char_escape(c: char) -> Seq<char> {
    if c == '"' {
        seq!['\\', '"']
    } else if c == '\\' {
        seq!['\\', '\\']
    } else if c == '\u{8}' {
        seq!['\\', 'b']
    } else if c == '\t' {
        seq!['\\', 't']
    } else if c == '\n' {
        seq!['\\', 'n']
    } else if c == '\u{c}' {
        seq!['\\', 'f']
    } else if c == '\r' {
        seq!['\\', 'r']
    } else if (c as int) < 32 {
        seq!['\\', 'u', '0', '0', hex_digit((c as int) / 16), hex_digit((c as int) % 16)]
    } else {
        seq![c]
    }
}

/// The JSON string literal for `s`: a quote, each character as
/// `json_char_escape` writes it, and a closing quote.
pub open spec fn json_string_literal(s: Seq<char>) -> Seq<char> {
    seq!['"'] + s.flat_map(|c: char| json_char_escape(c)) + seq!['"']
}

/// Quotes and escapes a string as a JSON string literal.
///
/// Calls `serde_json::to_string` on the string slice, whose string
/// formatter escapes exactly the characters listed in `json_char_escape`
/// and copies the rest.  Serializing a string into memory cannot fail.
#[verifier::external_body]
pub(crate) fn quote_json(s: &str) -> (r: String)
    ensures
        r@ == json_string_literal(s@),
{
    match serde_json::to_string(s) {
        Ok(t) => t,
        Err(_) => String::new(),
    }
}

/// The compact JSON text of a value: no spaces, members in order, strings
/// quoted and escaped as the serializer writes them.
pub open spec fn json_text(v: JsonValue) -> Seq<char>
    decreases v,
{
    match v {
        JsonValue::Null => "null"@,
        JsonValue::Bool(b) => bool_text(b),
        JsonValue::Number(n) => number_text(n),
        JsonValue::String(s) => json_string_literal(s@),
        JsonValue::Array(a) => "["@ + join_with(item_texts(a@), ","@) + "]"@,
        JsonValue::Object(m) => "{"@ + join_with(member_texts(m@), ","@) + "}"@,
    }
}

/// The compact texts of the items.
pub open spec fn item_texts(items: Seq<JsonValue>) -> Seq<Seq<char>>
    decreases items,
{
    if items.len() == 0 {
        Seq::empty()
    } else {
        item_texts(items.subrange(0, items.len() - 1)).push(json_text(items[items.len() - 1]))
    }
}

/// The compact texts of the members: quoted name, colon, value.
pub open spec fn member_texts(members: Seq<(String, JsonValue)>) -> Seq<Seq<char>>
    decreases members,
{
    if members.len() == 0 {
        Seq::empty()
    } else {
        let m = members[members.len() - 1];
        member_texts(members.subrange(0, members.len() - 1)).push(
            json_string_literal(m.0@) + ":"@ + json_text(m.1),
        )
    }
}

/// The compact JSON text of a value.
pub fn json_string(v: &JsonValue) -> (r: String)
    ensures
        r@ == json_text(*v),
    decreases v,
{
    match v {
        JsonValue::Null => String::from_str("null"),
        JsonValue::Bool(b) => if *b {
            String::from_str("true")
        } else {
            String::from_str("false")
        },
        JsonValue::Number(n) => number_string(n),
        JsonValue::String(s) => quote_json(s.as_str()),
        JsonValue::Array(a) => {
            let mut parts: Vec<String> = Vec::new();
            let mut i: usize = 0;
            while i < a.len()
                invariant
                    i <= a@.len(),
                    *v == JsonValue::Array(*a),
                    parts@.map_values(|p: String| p@) == item_texts(a@.subrange(0, i as int)),
                decreases a.len() - i,
            {
                proof {
                    assert(decreases_to!(*v => (*v)->Array_0));
                    assert(decreases_to!(*a => a@));
                    assert(decreases_to!(a@ => a@[i as int]));
                }
                let t = json_string(&a[i]);
                parts.push(t);
                proof {
                    let next = a@.subrange(0, i + 1);
                    assert(next.subrange(0, next.len() - 1) =~= a@.subrange(0, i as int));
                    assert(next[next.len() - 1] == a@[i as int]);
                    assert(parts@.map_values(|p: String| p@) =~= item_texts(next));
                }
                i = i + 1;
            }
            assert(a@.subrange(0, a@.len() as int) =~= a@);
            let mut out = String::from_str("[");
            let body = join_strings(&parts, ",");
            out.append(body.as_str());
            out.append("]");
            out
        },
        JsonValue::Object(m) => {
            let mut parts: Vec<String> = Vec::new();
            let mut i: usize = 0;
            while i < m.len()
                invariant
                    i <= m@.len(),
                    *v == JsonValue::Object(*m),
                    parts@.map_values(|p: String| p@) == member_texts(m@.subrange(0, i as int)),
                decreases m.len() - i,
            {
                let mut t = quote_json(m[i].0.as_str());
                t.append(":");
                proof {
                    assert(decreases_to!(*v => (*v)->Object_0));
                    assert(decreases_to!(*m => m@));
                    assert(decreases_to!(m@ => m@[i as int]));
                    assert(decreases_to!(m@[i as int] => m@[i as int].1));
                }
                let vt = json_string(&m[i].1);
                t.append(vt.as_str());
                parts.push(t);
                proof {
                    let next = m@.subrange(0, i + 1);
                    assert(next.subrange(0, next.len() - 1) =~= m@.subrange(0, i as int));
                    assert(next[next.len() - 1] == m@[i as int]);
                    assert(parts@.map_values(|p: String| p@) =~= member_texts(next));
                }
                i = i + 1;
            }
            assert(m@.subrange(0, m@.len() as int) =~= m@);
            let mut out = String::from_str("{");
            let body = join_strings(&parts, ",");
            out.append(body.as_str());
            out.append("}");
            out
        },
    }
}

// ---------------------------------------------------------------------------
// Reading fields for summaries
// ---------------------------------------------------------------------------

/// The text of an optional string.
pub open spec fn string_opt(o: Option<String>) -> Option<Seq<char>> {
    match o {
        Some(s) => Some(s@),
        None => None,
    }
}

/// What `extract_string` gives: the text of the member `field` when it is a
/// string, boolean or number, cut to `max` characters (with `...`) when a
/// limit is given.
pub open spec fn extracted(v: JsonValue, field: Seq<char>, max: Option<usize>) -> Option<Seq<char>> {
    match v.field(field) {
        Some(x) => match x.scalar_text() {
            Some(t) => Some(
                match max {
                    Some(m) => truncated_with_ellipsis(t, m as nat),
                    None => t,
                },
            ),
            None => None,
        },
        None => None,
    }
}

/// Extract a string value from JSON, with optional truncation.
pub fn extract_string(result: &JsonValue, field: &str, max_len: Option<usize>) -> (r: Option<String>)
    ensures
        string_opt(r) == extracted(*result, field@, max_len),
{
    match result.get(field) {
        None => None,
        Some(v) => match scalar_string(v) {
            None => None,
            Some(s) => match max_len {
                Some(max) => Some(truncate_for_summary(s.as_str(), max)),
                None => Some(s),
            },
        },
    }
}

// ---------------------------------------------------------------------------
// Concise summaries of values
// ---------------------------------------------------------------------------

/// The concise summary of a value: strings quoted and cut to 50 characters,
/// small arrays and objects in full, large ones by their first items or by
/// their size.
pub open spec fn value_summary(v: JsonValue) -> Seq<char>
    decreases v,
{
    match v {
        JsonValue::String(s) => "\""@ + truncated_with_ellipsis(s@, 50) + "\""@,
        JsonValue::Array(a) => if a@.len() == 0 {
            "[]"@
        } else if a@.len() <= 5 {
            "["@ + join_with(item_summaries(a@), ", "@) + "]"@
        } else {
            "["@ + join_with(item_summaries(a@.subrange(0, 3)), ", "@) + ", ... ("@ + decimal(
                a@.len(),
            ) + " total)]"@
        },
        JsonValue::Object(m) => if m@.len() == 0 {
            "{}"@
        } else if m@.len() <= 3 {
            "{"@ + join_with(member_summaries(m@), ", "@) + "}"@
        } else {
            "{"@ + decimal(m@.len()) + " keys}"@
        },
        JsonValue::Null => "null"@,
        JsonValue::Bool(b) => bool_text(b),
        JsonValue::Number(n) => number_text(n),
    }
}

/// The summaries of the items.
pub open spec fn item_summaries(items: Seq<JsonValue>) -> Seq<Seq<char>>
    decreases items,
{
    if items.len() == 0 {
        Seq::empty()
    } else {
        item_summaries(items.subrange(0, items.len() - 1)).push(value_summary(items[items.len() - 1]))
    }
}

/// The summaries of the members: name, colon, summary of the value.
pub open spec fn member_summaries(members: Seq<(String, JsonValue)>) -> Seq<Seq<char>>
    decreases members,
{
    if members.len() == 0 {
        Seq::empty()
    } else {
        let m = members[members.len() - 1];
        member_summaries(members.subrange(0, members.len() - 1)).push(
            m.0@ + ": "@ + value_summary(m.1),
        )
    }
}

/// Format a single JSON value into a concise summary.
pub fn format_value_summary(v: &JsonValue) -> (r: String)
    ensures
        r@ == value_summary(*v),
    decreases v,
{
    match v {
        JsonValue::String(s) => {
            let mut out = String::from_str("\"");
            let t = truncate_for_summary(s.as_str(), 50);
            out.append(t.as_str());
            out.append("\"");
            out
        },
        JsonValue::Array(a) => {
            if a.len() == 0 {
                return String::from_str("[]");
            }
            let n: usize = if a.len() <= 5 { a.len() } else { 3 };
            let mut parts: Vec<String> = Vec::new();
            let mut i: usize = 0;
            while i < n
                invariant
                    i <= n <= a@.len(),
                    *v == JsonValue::Array(*a),
                    parts@.map_values(|p: String| p@) == item_summaries(a@.subrange(0, i as int)),
                decreases n - i,
            {
                proof {
                    assert(decreases_to!(*v => (*v)->Array_0));
                    assert(decreases_to!(*a => a@));
                    assert(decreases_to!(a@ => a@[i as int]));
                }
                let t = format_value_summary(&a[i]);
                parts.push(t);
                proof {
                    let next = a@.subrange(0, i + 1);
                    assert(next.subrange(0, next.len() - 1) =~= a@.subrange(0, i as int));
                    assert(next[next.len() - 1] == a@[i as int]);
                    assert(parts@.map_values(|p: String| p@) =~= item_summaries(next));
                }
                i = i + 1;
            }
            let body = join_strings(&parts, ", ");
            let mut out = String::from_str("[");
            out.append(body.as_str());
            if a.len() <= 5 {
                assert(a@.subrange(0, a@.len() as int) =~= a@);
                out.append("]");
            } else {
                out.append(", ... (");
                let count = decimal_string(a.len() as u64);
                out.append(count.as_str());
                out.append(" total)]");
            }
            out
        },
        JsonValue::Object(m) => {
            if m.len() == 0 {
                return String::from_str("{}");
            }
            if m.len() > 3 {
                let mut out = String::from_str("{");
                let count = decimal_string(m.len() as u64);
                out.append(count.as_str());
                out.append(" keys}");
                return out;
            }
            let mut parts: Vec<String> = Vec::new();
            let mut i: usize = 0;
            while i < m.len()
                invariant
                    i <= m@.len(),
                    *v == JsonValue::Object(*m),
                    parts@.map_values(|p: String| p@) == member_summaries(m@.subrange(0, i as int)),
                decreases m.len() - i,
            {
                proof {
                    assert(decreases_to!(*v => (*v)->Object_0));
                    assert(decreases_to!(*m => m@));
                    assert(decreases_to!(m@ => m@[i as int]));
                    assert(decreases_to!(m@[i as int] => m@[i as int].1));
                }
                let mut t = m[i].0.clone();
                t.append(": ");
                let vs = format_value_summary(&m[i].1);
                t.append(vs.as_str());
                parts.push(t);
                proof {
                    let next = m@.subrange(0, i + 1);
                    assert(next.subrange(0, next.len() - 1) =~= m@.subrange(0, i as int));
                    assert(next[next.len() - 1] == m@[i as int]);
                    assert(parts@.map_values(|p: String| p@) =~= member_summaries(next));
                }
                i = i + 1;
            }
            assert(m@.subrange(0, m@.len() as int) =~= m@);
            let body = join_strings(&parts, ", ");
            let mut out = String::from_str("{");
            out.append(body.as_str());
            out.append("}");
            out
        },
        JsonValue::Null => String::from_str("null"),
        JsonValue::Bool(b) => if *b {
            String::from_str("true")
        } else {
            String::from_str("false")
        },
        JsonValue::Number(n) => number_string(n),
    }
}

/// The summary of tool arguments: `name=summary` for each argument, in
/// order, separated by commas.
pub open spec fn arguments_summary(arguments: Seq<(String, JsonValue)>) -> Seq<char> {
    join_with(argument_parts(arguments), ", "@)
}

/// The `name=summary` part of each argument.
pub open spec fn argument_parts(arguments: Seq<(String, JsonValue)>) -> Seq<Seq<char>>
    decreases arguments.len(),
{
    if arguments.len() == 0 {
        Seq::empty()
    } else {
        let a = arguments.last();
        argument_parts(arguments.drop_last()).push(a.0@ + "="@ + value_summary(a.1))
    }
}

/// Format tool arguments into a concise summary string (empty when there
/// are no arguments).
pub fn format_arguments_summary(arguments: &Vec<(String, JsonValue)>) -> (r: String)
    ensures
        r@ == arguments_summary(arguments@),
        arguments@.len() == 0 ==> r@ == Seq::<char>::empty(),
{
    let mut parts: Vec<String> = Vec::new();
    let mut i: usize = 0;
    while i < arguments.len()
        invariant
            i <= arguments@.len(),
            parts@.map_values(|p: String| p@) == argument_parts(arguments@.subrange(0, i as int)),
        decreases arguments.len() - i,
    {
        let mut t = arguments[i].0.clone();
        t.append("=");
        let vs = format_value_summary(&arguments[i].1);
        t.append(vs.as_str());
        parts.push(t);
        proof {
            let next = arguments@.subrange(0, i + 1);
            assert(next.drop_last() =~= arguments@.subrange(0, i as int));
            assert(parts@.map_values(|p: String| p@) =~= argument_parts(next));
        }
        i = i + 1;
    }
    assert(arguments@.subrange(0, arguments@.len() as int) =~= arguments@);
    join_strings(&parts, ", ")
}

// ---------------------------------------------------------------------------
// Arrays of strings in tool arguments
// ---------------------------------------------------------------------------

/// The name of a value's JSON type, as error messages give it.
pub open spec fn kind_name(v: JsonValue) -> Seq<char> {
    match v {
        JsonValue::Null => "null"@,
        JsonValue::Bool(_) => "boolean"@,
        JsonValue::Number(_) => "number"@,
        JsonValue::String(_) => "string"@,
        JsonValue::Array(_) => "array"@,
        JsonValue::Object(_) => "object"@,
    }
}

fn kind_name_of(v: &JsonValue) -> (r: &'static str)
    ensures
        r@ == kind_name(*v),
{
    match v {
        JsonValue::Null => "null",
        JsonValue::Bool(_) => "boolean",
        JsonValue::Number(_) => "number",
        JsonValue::String(_) => "string",
        JsonValue::Array(_) => "array",
        JsonValue::Object(_) => "object",
    }
}

/// The message for an element of an array that is not a string.
pub open spec fn non_string_message(field: Seq<char>, index: nat, v: JsonValue) -> Seq<char> {
    "Invalid "@ + field + "["@ + decimal(index) + "]: expected string, got "@ + kind_name(v)
}

/// The text of a string value.
pub open spec fn string_text(v: JsonValue) -> Option<Seq<char>> {
    match v {
        JsonValue::String(t) => Some(t@),
        _ => None,
    }
}

/// Parse a JSON array into strings, failing on the first element that is
/// not a string.
pub fn parse_string_array(arr: &[JsonValue], field_name: &str) -> (r: Result<Vec<String>, CallToolResult>)
    ensures
        (forall|j: int| 0 <= j < arr@.len() ==> (#[trigger] string_text(arr@[j])) is Some) <==> r is Ok,
        r matches Ok(v) ==> v@.len() == arr@.len() && forall|j: int|
            0 <= j < arr@.len() ==> #[trigger] string_text(arr@[j]) == Some(v@[j]@),
        r matches Err(e) ==> exists|i: int|
            0 <= i < arr@.len() && string_text(arr@[i]) is None && (forall|j: int|
                0 <= j < i ==> (#[trigger] string_text(arr@[j])) is Some) && e.is_error == Some(true)
                && e.content@.len() == 1 && e.content@[0]->Text_text@ == non_string_message(
                field_name@,
                i as nat,
                arr@[i],
            ),
{
    let mut result: Vec<String> = Vec::new();
    let mut i: usize = 0;
    while i < arr.len()
        invariant
            i <= arr@.len(),
            result@.len() == i,
            forall|j: int| 0 <= j < i ==> #[trigger] string_text(arr@[j]) == Some(result@[j]@),
        decreases arr.len() - i,
    {
        match arr[i].as_str() {
            Some(s) => {
                result.push(String::from_str(s));
            },
            None => {
                let mut msg = String::from_str("Invalid ");
                msg.append(field_name);
                msg.append("[");
                let idx = decimal_string(i as u64);
                msg.append(idx.as_str());
                msg.append("]: expected string, got ");
                msg.append(kind_name_of(&arr[i]));
                let e = CallToolResult::error(msg);
                assert(string_text(arr@[i as int]) is None);
                return Err(e);
            },
        }
        i = i + 1;
    }
    assert(forall|j: int| 0 <= j < arr@.len() ==> (#[trigger] string_text(arr@[j])) is Some);
    Ok(result)
}

// ---------------------------------------------------------------------------
// Tool arguments
// ---------------------------------------------------------------------------

/// The string member `key`.
pub open spec fn member_text(members: Seq<(String, JsonValue)>, key: Seq<char>) -> Option<Seq<char>> {
    match lookup_member(members, key) {
        Some(v) => string_text(v),
        None => None,
    }
}

/// The string member `key`.
pub fn member_str<'a>(members: &'a Vec<(String, JsonValue)>, key: &str) -> (r: Option<&'a str>)
    ensures
        match r {
            Some(s) => member_text(members@, key@) == Some(s@),
            None => member_text(members@, key@) is None,
        },
{
    match member(members, key) {
        Some(v) => v.as_str(),
        None => None,
    }
}

/// The first `n` elements, or all of them if there are fewer.
pub open spec fn first_n<A>(s: Seq<A>, n: nat) -> Seq<A> {
    if s.len() <= n {
        s
    } else {
        s.subrange(0, n as int)
    }
}

/// The strings among the items, in order.
pub open spec fn string_items(items: Seq<JsonValue>) -> Seq<Seq<char>>
    decreases items.len(),
{
    if items.len() == 0 {
        Seq::empty()
    } else {
        let rest = string_items(items.drop_last());
        match string_text(items.last()) {
            Some(t) => rest.push(t),
            None => rest,
        }
    }
}

/// The first `n` strings of the array member `key`, each cut to `max`
/// characters; none when the member is not an array.
pub open spec fn short_strings(members: Seq<(String, JsonValue)>, key: Seq<char>, n: nat, max: nat) -> Seq<Seq<char>> {
    match lookup_member(members, key) {
        Some(v) => match v.items() {
            Some(a) => first_n(string_items(a), n).map_values(|t: Seq<char>| take_chars(t, max)),
            None => Seq::empty(),
        },
        None => Seq::empty(),
    }
}

/// The first `n` strings of an array, each cut to `max` characters.
pub fn collect_short_strings(items: &Vec<JsonValue>, n: usize, max: usize) -> (r: Vec<String>)
    ensures
        r@.map_values(|s: String| s@) == first_n(string_items(items@), n as nat).map_values(
            |t: Seq<char>| take_chars(t, max as nat),
        ),
{
    let mut out: Vec<String> = Vec::new();
    let mut i: usize = 0;
    while i < items.len() && out.len() < n
        invariant
            i <= items@.len(),
            out@.len() <= n,
            out@.len() == string_items(items@.subrange(0, i as int)).len() || out@.len() == n,
            out@.len() <= string_items(items@.subrange(0, i as int)).len(),
            out@.map_values(|s: String| s@) == string_items(items@.subrange(0, i as int)).subrange(
                0,
                out@.len() as int,
            ).map_values(|t: Seq<char>| take_chars(t, max as nat)),
        decreases items.len() - i,
    {
        let ghost before = out@.map_values(|s: String| s@);
        let ghost prev = string_items(items@.subrange(0, i as int));
        proof {
            let next = items@.subrange(0, i + 1);
            assert(next.drop_last() =~= items@.subrange(0, i as int));
            assert(next.last() == items@[i as int]);
        }
        match items[i].as_str() {
            Some(t) => {
                let c = truncate_string(t, max);
                assert(out@.len() == prev.len());
                assert(prev.subrange(0, prev.len() as int) =~= prev);
                out.push(c);
                proof {
                    let now = string_items(items@.subrange(0, i + 1));
                    assert(now == prev.push(t@));
                    assert(out@.map_values(|s: String| s@) =~= before.push(c@));
                    assert(now.subrange(0, out@.len() as int) =~= now);
                    assert(out@.map_values(|s: String| s@) =~= now.subrange(0, out@.len() as int).map_values(
                        |x: Seq<char>| take_chars(x, max as nat),
                    ));
                }
            },
            None => {
                proof {
                    let now = string_items(items@.subrange(0, i + 1));
                    assert(now == prev);
                }
            },
        }
        i = i + 1;
    }
    proof {
        let all = string_items(items@);
        let upto = string_items(items@.subrange(0, i as int));
        lemma_string_items_prefix(items@, i as int);
        if out@.len() < n {
            assert(i == items@.len());
            assert(items@.subrange(0, i as int) =~= items@);
        }
        assert(upto.subrange(0, out@.len() as int) =~= all.subrange(0, out@.len() as int));
        assert(first_n(all, n as nat) =~= all.subrange(0, out@.len() as int));
    }
    out
}

/// The strings of a prefix of the items are a prefix of their strings.
pub proof fn lemma_string_items_prefix(items: Seq<JsonValue>, i: int)
    requires
        0 <= i <= items.len(),
    ensures
        string_items(items.subrange(0, i)).len() <= string_items(items).len(),
        string_items(items.subrange(0, i)) == string_items(items).subrange(
            0,
            string_items(items.subrange(0, i)).len() as int,
        ),
    decreases items.len() - i,
{
    if i < items.len() {
        lemma_string_items_prefix(items, i + 1);
        let next = items.subrange(0, i + 1);
        assert(next.drop_last() =~= items.subrange(0, i));
        assert(next.last() == items[i]);
    } else {
        assert(items.subrange(0, i) =~= items);
    }
}

// ---------------------------------------------------------------------------
// Parameters of tool calls
// ---------------------------------------------------------------------------

/// The first of `keys` that is not a string member, if any.
pub open spec fn first_missing(m: Seq<(String, JsonValue)>, keys: Seq<Seq<char>>) -> Option<Seq<char>>
    decreases keys.len(),
{
    if keys.len() == 0 {
        None
    } else if member_text(m, keys[0]) is None {
        Some(keys[0])
    } else {
        first_missing(m, keys.drop_first())
    }
}

/// The string parameters `keys`, in order; the first one missing refuses
/// the call with `Missing required parameter: <key>`.
pub fn required_params(arguments: &Vec<(String, JsonValue)>, keys: &Vec<&str>) -> (r: Result<Vec<String>, String>)
    ensures
        match r {
            Ok(v) => first_missing(arguments@, keys@.map_values(|k: &str| k@)) is None && v@.len() == keys@.len()
                && forall|i: int| 0 <= i < keys@.len() ==> member_text(arguments@, keys@[i]@) == Some(
                #[trigger] v@[i]@),
            Err(e) => first_missing(arguments@, keys@.map_values(|k: &str| k@)) matches Some(k) && e@
                == "Missing required parameter: "@ + k,
        },
{
    let ghost kv = keys@.map_values(|k: &str| k@);
    let mut out: Vec<String> = Vec::new();
    let mut i: usize = 0;
    assert(kv.skip(0) =~= kv);
    while i < keys.len()
        invariant
            i <= keys@.len(),
            kv == keys@.map_values(|k: &str| k@),
            out@.len() == i,
            first_missing(arguments@, kv) == first_missing(arguments@, kv.skip(i as int)),
            forall|j: int| 0 <= j < i ==> member_text(arguments@, keys@[j]@) == Some(#[trigger] out@[j]@),
        decreases keys@.len() - i,
    {
        assert(kv.skip(i as int)[0] == keys@[i as int]@);
        assert(kv.skip(i as int).drop_first() =~= kv.skip(i + 1));
        match member_str(arguments, keys[i]) {
            Some(v) => {
                let ghost before = out@;
                out.push(String::from_str(v));
                assert forall|j: int| 0 <= j < i + 1 implies member_text(arguments@, keys@[j]@) == Some(
                    #[trigger] out@[j]@) by {
                    if j < i {
                        assert(out@[j] == before[j]);
                    }
                }
            },
            None => {
                let mut msg = String::from_str("Missing required parameter: ");
                msg.append(keys[i]);
                return Err(msg);
            },
        }
        i = i + 1;
    }
    Ok(out)
}

/// The `limit` parameter capped at 100, where it is an unsigned integer.
pub open spec fn capped_limit_of(m: Seq<(String, JsonValue)>) -> Option<u8> {
    match lookup_member(m, "limit"@) {
        Some(v) => match v.u64_of() {
            Some(l) => Some(if l < 100 { l as u8 } else { 100u8 }),
            None => None,
        },
        None => None,
    }
}

/// The `limit` parameter of the Bluesky read tools: at most 100.
pub fn capped_limit(arguments: &Vec<(String, JsonValue)>) -> (r: Option<u8>)
    ensures
        r == capped_limit_of(arguments@),
{
    match member(arguments, "limit") {
        Some(v) => match v.as_u64() {
            Some(l) => Some(if l < 100 { l as u8 } else { 100u8 }),
            None => None,
        },
        None => None,
    }
}

} // verus!
