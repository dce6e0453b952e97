//! Creating and updating custom tool records from tool arguments, and the
//! approval granted to a tool that can be approved automatically.

use vstd::prelude::*;
use crate::text::{utf8_len, join_with, join_strings};
use crate::strset::string_views;
use crate::json::{
    JsonValue, lookup_member, member, member_text, member_str, string_items,
};
use crate::permissions::{
    CustomTool, ToolApproval, ToolApprovalStatus, tool_model, approval_model,
    model_dominates,
};
use crate::approval::{base_clean, auto_approvable, opt_str, is_auto_approvable};
use crate::media::{ByteSlice, Facet, FacetFeature};
use crate::deno::DenoPermissions;
use crate::secrets::{SecretManager, env_prefix, name_char_ok};
use crate::strset::{keys_distinct, entries_map, position_in};
use crate::records::{rkey_of, extract_rkey};

verus! {

/// The largest code a custom tool may have, in bytes.
pub const MAX_CODE_SIZE: usize = 65536;

/// A character allowed in a tool name: an ASCII letter or digit, or `_`.
pub open spec fn word_char(c: char) -> bool {
    ('a' <= c && c <= 'z') || ('A' <= c && c <= 'Z') || ('0' <= c && c <= '9') || c == '_'
}

/// Why the name of a new tool is refused, if it is.
pub open spec fn new_name_error(m: Seq<(String, JsonValue)>) -> Option<Seq<char>> {
    match member_text(m, "name"@) {
        None => Some("Missing required parameter: name"@),
        Some(n) => if !(forall|i: int| 0 <= i < n.len() ==> word_char(#[trigger] n[i])) {
            Some("Tool name must be alphanumeric with underscores only"@)
        } else if utf8_len(n) > 64 {
            Some("Tool name too long (max 64 chars)"@)
        } else {
            None
        },
    }
}

fn is_word_char(c: char) -> (r: bool)
    ensures
        r == word_char(c),
{
    ('a' <= c && c <= 'z') || ('A' <= c && c <= 'Z') || ('0' <= c && c <= '9') || c == '_'
}

/// Check the name of a new tool.
pub fn check_new_tool_name(arguments: &Vec<(String, JsonValue)>) -> (r: Result<String, String>)
    ensures
        match r {
            Ok(n) => new_name_error(arguments@) is None && member_text(arguments@, "name"@) == Some(n@),
            Err(e) => new_name_error(arguments@) == Some(e@),
        },
{
    let name = match member_str(arguments, "name") {
        Some(n) => n,
        None => {
            return Err(String::from_str("Missing required parameter: name"));
        },
    };
    let chars = crate::text::str_chars(name);
    let mut i: usize = 0;
    while i < chars.len()
        invariant
            i <= chars@.len(),
            chars@ == name@,
            member_text(arguments@, "name"@) == Some(name@),
            forall|k: int| 0 <= k < i ==> word_char(#[trigger] chars@[k]),
        decreases chars.len() - i,
    {
        if !is_word_char(chars[i]) {
            assert(!word_char(name@[i as int]));
            return Err(String::from_str("Tool name must be alphanumeric with underscores only"));
        }
        i = i + 1;
    }
    let n = name.as_bytes().len();
    assert(n == utf8_len(name@));
    if n > 64 {
        return Err(String::from_str("Tool name too long (max 64 chars)"));
    }
    Ok(String::from_str(name))
}

/// The strings in the array member `key`; none when it is not an array.
pub open spec fn string_list(m: Seq<(String, JsonValue)>, key: Seq<char>) -> Seq<Seq<char>> {
    match lookup_member(m, key) {
        Some(v) => match v.items() {
            Some(a) => string_items(a),
            None => Seq::empty(),
        },
        None => Seq::empty(),
    }
}

/// The boolean member `key`.
pub open spec fn member_bool(m: Seq<(String, JsonValue)>, key: Seq<char>) -> Option<bool> {
    match lookup_member(m, key) {
        Some(JsonValue::Bool(b)) => Some(b),
        _ => None,
    }
}

fn bool_member(m: &Vec<(String, JsonValue)>, key: &str) -> (r: Option<bool>)
    ensures
        r == member_bool(m@, key@),
{
    match member(m, key) {
        Some(JsonValue::Bool(b)) => Some(*b),
        _ => None,
    }
}

/// The strings of an array, in order.
pub fn collect_strings(items: &Vec<JsonValue>) -> (r: Vec<String>)
    ensures
        string_views(r@) == string_items(items@),
{
    let mut out: Vec<String> = Vec::new();
    let mut i: usize = 0;
    while i < items.len()
        invariant
            i <= items@.len(),
            string_views(out@) == string_items(items@.subrange(0, i as int)),
        decreases items.len() - i,
    {
        let ghost before = string_views(out@);
        proof {
            let next = items@.subrange(0, i + 1);
            assert(next.drop_last() =~= items@.subrange(0, i as int));
            assert(next.last() == items@[i as int]);
        }
        match items[i].as_str() {
            Some(t) => {
                let c = String::from_str(t);
                out.push(c);
                assert(string_views(out@) =~= before.push(c@));
            },
            None => {},
        }
        i = i + 1;
    }
    assert(items@.subrange(0, items@.len() as int) =~= items@);
    out
}

fn string_list_of(m: &Vec<(String, JsonValue)>, key: &str) -> (r: Vec<String>)
    ensures
        string_views(r@) == string_list(m@, key@),
{
    match member(m, key) {
        Some(v) => match v.as_array() {
            Some(a) => collect_strings(a),
            None => {
                let e: Vec<String> = Vec::new();
                assert(string_views(e@) =~= Seq::<Seq<char>>::empty());
                e
            },
        },
        None => {
            let e: Vec<String> = Vec::new();
            assert(string_views(e@) =~= Seq::<Seq<char>>::empty());
            e
        },
    }
}

/// Move out the value of the first member named `key`.
pub(crate) fn take_member(m: &mut Vec<(String, JsonValue)>, key: &str) -> (r: Option<JsonValue>)
    ensures
        r == lookup_member(old(m)@, key@),
{
    let ghost orig = m@;
    let mut i: usize = 0;
    assert(m@.skip(0) =~= m@);
    while i < m.len()
        invariant
            i <= m@.len(),
            m@ == orig,
            orig == old(m)@,
            lookup_member(orig, key@) == lookup_member(orig.skip(i as int), key@),
        decreases m.len() - i,
    {
        assert(orig.skip(i as int)[0] == orig[i as int]);
        if crate::text::str_eq(m[i].0.as_str(), key) {
            assert(lookup_member(orig.skip(i as int), key@) == Some(orig[i as int].1));
            let e = m.remove(i);
            return Some(e.1);
        }
        assert(orig.skip(i as int).drop_first() =~= orig.skip(i + 1));
        i = i + 1;
    }
    None
}

/// Why the arguments of a new tool (its name aside) are refused, if they are.
pub open spec fn new_tool_error(m: Seq<(String, JsonValue)>) -> Option<Seq<char>> {
    if member_text(m, "description"@) is None {
        Some("Missing required parameter: description"@)
    } else if member_text(m, "code"@) is None {
        Some("Missing required parameter: code"@)
    } else if utf8_len(member_text(m, "code"@)->0) > MAX_CODE_SIZE {
        Some("Code exceeds maximum size of 64KB"@)
    } else if lookup_member(m, "input_schema"@) is None {
        Some("Missing required parameter: input_schema"@)
    } else {
        None
    }
}

/// `t` is the first version of a tool named `name` with what the
/// arguments give.
pub open spec fn new_tool_is(t: CustomTool, m: Seq<(String, JsonValue)>, name: Seq<char>) -> bool {
    &&& t.name@ == name
    &&& t.version == 1
    &&& Some(t.description@) == member_text(m, "description"@)
    &&& Some(t.code@) == member_text(m, "code"@)
    &&& Some(t.input_schema) == lookup_member(m, "input_schema"@)
    &&& t.requires_workspace == if member_bool(m, "requires_workspace"@) == Some(true) {
        Some(true)
    } else {
        None
    }
    &&& t.requires_network == member_bool(m, "requires_network"@)
    &&& string_views(t.required_secrets@) == string_list(m, "required_secrets"@)
    &&& string_views(t.required_commands@) == string_list(m, "required_commands"@)
    &&& string_views(t.required_tools@) == string_list(m, "required_tools"@)
}

/// Check the arguments of a new tool named `name` (already checked) and
/// make its record.
pub fn new_tool_record(name: String, arguments: Vec<(String, JsonValue)>) -> (r: Result<CustomTool, String>)
    ensures
        match r {
            Ok(t) => new_tool_error(arguments@) is None && new_tool_is(t, arguments@, name@),
            Err(e) => new_tool_error(arguments@) == Some(e@),
        },
{
    let mut arguments = arguments;
    let ghost m = arguments@;
    let description = match member_str(&arguments, "description") {
        Some(d) => String::from_str(d),
        None => {
            return Err(String::from_str("Missing required parameter: description"));
        },
    };
    let code = match member_str(&arguments, "code") {
        Some(c) => c,
        None => {
            return Err(String::from_str("Missing required parameter: code"));
        },
    };
    let size = code.as_bytes().len();
    assert(size == utf8_len(code@));
    if size > MAX_CODE_SIZE {
        return Err(String::from_str("Code exceeds maximum size of 64KB"));
    }
    let code = String::from_str(code);
    let requires_workspace = match bool_member(&arguments, "requires_workspace") {
        Some(true) => Some(true),
        _ => None,
    };
    let requires_network = bool_member(&arguments, "requires_network");
    let required_secrets = string_list_of(&arguments, "required_secrets");
    let required_commands = string_list_of(&arguments, "required_commands");
    let required_tools = string_list_of(&arguments, "required_tools");
    let input_schema = match take_member(&mut arguments, "input_schema") {
        Some(s) => s,
        None => {
            return Err(String::from_str("Missing required parameter: input_schema"));
        },
    };
    Ok(CustomTool {
        name,
        description,
        version: 1,
        code,
        input_schema,
        requires_workspace,
        requires_network,
        required_secrets,
        required_commands,
        required_tools,
    })
}

// ---------------------------------------------------------------------------
// Updates
// ---------------------------------------------------------------------------

/// Why the arguments of an update are refused, if they are.
pub open spec fn update_request_error(m: Seq<(String, JsonValue)>) -> Option<Seq<char>> {
    if member_text(m, "name"@) is None {
        Some("Missing required parameter: name"@)
    } else if member_text(m, "code"@) is None {
        Some("Missing required parameter: code"@)
    } else if utf8_len(member_text(m, "code"@)->0) > MAX_CODE_SIZE {
        Some("Code exceeds maximum size of 64KB"@)
    } else {
        None
    }
}

/// Check the arguments of an update: the name of the tool and its new code.
pub fn check_tool_update(arguments: &Vec<(String, JsonValue)>) -> (r: Result<(String, String), String>)
    ensures
        match r {
            Ok((n, c)) => update_request_error(arguments@) is None && member_text(arguments@, "name"@)
                == Some(n@) && member_text(arguments@, "code"@) == Some(c@),
            Err(e) => update_request_error(arguments@) == Some(e@),
        },
{
    let name = match member_str(arguments, "name") {
        Some(n) => n,
        None => {
            return Err(String::from_str("Missing required parameter: name"));
        },
    };
    let code = match member_str(arguments, "code") {
        Some(c) => c,
        None => {
            return Err(String::from_str("Missing required parameter: code"));
        },
    };
    let size = code.as_bytes().len();
    assert(size == utf8_len(code@));
    if size > MAX_CODE_SIZE {
        return Err(String::from_str("Code exceeds maximum size of 64KB"));
    }
    Ok((String::from_str(name), String::from_str(code)))
}

/// `after` is `before` with the new code, the next version, and each field
/// the arguments give replaced.
pub open spec fn updated_tool(before: CustomTool, after: CustomTool, m: Seq<(String, JsonValue)>, code: Seq<char>) -> bool {
    &&& after.name == before.name
    &&& after.code@ == code
    &&& after.version == before.version + 1
    &&& after.description@ == match member_text(m, "description"@) {
        Some(d) => d,
        None => before.description@,
    }
    &&& after.input_schema == match lookup_member(m, "input_schema"@) {
        Some(s) => s,
        None => before.input_schema,
    }
    &&& string_views(after.required_secrets@) == if lookup_member(m, "required_secrets"@) matches Some(v)
        && v.items() is Some {
        string_list(m, "required_secrets"@)
    } else {
        string_views(before.required_secrets@)
    }
    &&& after.requires_workspace == match member_bool(m, "requires_workspace"@) {
        Some(true) => Some(true),
        Some(false) => None,
        None => before.requires_workspace,
    }
    &&& after.requires_network == match member_bool(m, "requires_network"@) {
        Some(b) => Some(b),
        None => before.requires_network,
    }
    &&& string_views(after.required_commands@) == if lookup_member(m, "required_commands"@) matches Some(v)
        && v.items() is Some {
        string_list(m, "required_commands"@)
    } else {
        string_views(before.required_commands@)
    }
    &&& string_views(after.required_tools@) == if lookup_member(m, "required_tools"@) matches Some(v)
        && v.items() is Some {
        string_list(m, "required_tools"@)
    } else {
        string_views(before.required_tools@)
    }
}

/// Apply an update to a tool record: the new code, the next version, and
/// the fields the arguments give.
pub fn apply_tool_update(tool: CustomTool, arguments: Vec<(String, JsonValue)>, code: String) -> (r: CustomTool)
    requires
        tool.version < i32::MAX,
    ensures
        updated_tool(tool, r, arguments@, code@),
{
    let mut t = tool;
    let mut arguments = arguments;
    let ghost m = arguments@;
    t.code = code;
    t.version = t.version + 1;
    match member_str(&arguments, "description") {
        Some(d) => {
            t.description = String::from_str(d);
        },
        None => {},
    }
    match member(&arguments, "required_secrets") {
        Some(v) => match v.as_array() {
            Some(a) => {
                t.required_secrets = collect_strings(a);
            },
            None => {},
        },
        None => {},
    }
    match bool_member(&arguments, "requires_workspace") {
        Some(b) => {
            t.requires_workspace = if b {
                Some(true)
            } else {
                None
            };
        },
        None => {},
    }
    match bool_member(&arguments, "requires_network") {
        Some(b) => {
            t.requires_network = Some(b);
        },
        None => {},
    }
    match member(&arguments, "required_commands") {
        Some(v) => match v.as_array() {
            Some(a) => {
                t.required_commands = collect_strings(a);
            },
            None => {},
        },
        None => {},
    }
    match member(&arguments, "required_tools") {
        Some(v) => match v.as_array() {
            Some(a) => {
                t.required_tools = collect_strings(a);
            },
            None => {},
        },
        None => {},
    }
    match take_member(&mut arguments, "input_schema") {
        Some(s) => {
            t.input_schema = s;
        },
        None => {},
    }
    t
}

// ---------------------------------------------------------------------------
// Automatic approval
// ---------------------------------------------------------------------------

/// The reason recorded with an automatic approval.
pub open spec fn auto_reason(updated: bool) -> Seq<char> {
    if updated {
        "Auto-approved: safe tool (no network, no secrets)"@
    } else {
        "Auto-approved: safe tool"@
    }
}

/// The approval granted to a tool that can be approved automatically: for
/// its current version, no network, no secrets, no commands, the tools it
/// calls; approved by `auto`.
pub fn auto_approval(tool: &CustomTool, updated: bool) -> (r: ToolApproval)
    ensures
        r.status == ToolApprovalStatus::Approved,
        r.tool_version == tool.version,
        r.allow_network == Some(false),
        r.allowed_secrets@.len() == 0,
        r.allowed_commands@.len() == 0,
        string_views(r.allowed_tools@) == string_views(tool.required_tools@),
        string_opt_view(r.approved_by) == Some("auto"@),
        string_opt_view(r.reason) == Some(auto_reason(updated)),
{
    let mut allowed_tools: Vec<String> = Vec::new();
    let mut i: usize = 0;
    while i < tool.required_tools.len()
        invariant
            i <= tool.required_tools@.len(),
            string_views(allowed_tools@) == string_views(tool.required_tools@).subrange(0, i as int),
        decreases tool.required_tools.len() - i,
    {
        let c = tool.required_tools[i].clone();
        let ghost before = string_views(allowed_tools@);
        allowed_tools.push(c);
        assert(string_views(allowed_tools@) =~= before.push(c@));
        assert(string_views(allowed_tools@) =~= string_views(tool.required_tools@).subrange(0, i + 1));
        i = i + 1;
    }
    assert(string_views(tool.required_tools@).subrange(0, i as int) =~= string_views(tool.required_tools@));
    let reason = if updated {
        String::from_str("Auto-approved: safe tool (no network, no secrets)")
    } else {
        String::from_str("Auto-approved: safe tool")
    };
    ToolApproval {
        tool_version: tool.version,
        status: ToolApprovalStatus::Approved,
        approved_by: Some(String::from_str("auto")),
        reason: Some(reason),
        allow_network: Some(false),
        allowed_secrets: Vec::new(),
        allowed_commands: Vec::new(),
        allowed_tools,
    }
}

/// The view of an optional string.
pub open spec fn string_opt_view(o: Option<String>) -> Option<Seq<char>> {
    match o {
        Some(s) => Some(s@),
        None => None,
    }
}

/// An automatic approval covers what a clean tool asks for: the permissions
/// it grants dominate the tool's requested permissions.
pub proof fn law_auto_approval_covers_tool(tool: CustomTool, approval: ToolApproval)
    requires
        base_clean(tool),
        approval.allow_network == Some(false),
        approval.allowed_secrets@.len() == 0,
        approval.allowed_commands@.len() == 0,
        string_views(approval.allowed_tools@) == string_views(tool.required_tools@),
    ensures
        model_dominates(approval_model(approval), tool_model(tool)),
{
    assert(tool_model(tool).secrets =~= Set::<Seq<char>>::empty());
    assert(tool_model(tool).commands =~= Set::<Seq<char>>::empty());
}

// ---------------------------------------------------------------------------
// Listing status and the operator's notice
// ---------------------------------------------------------------------------

/// The status a listing shows for a tool of version `version`: `approved`
/// when an approval of that version grants it, `outdated` when there is an
/// approval that does not, `pending` without one.
pub open spec fn tool_status(approval: Option<ToolApproval>, version: i32) -> Seq<char> {
    match approval {
        Some(a) => if a.status == ToolApprovalStatus::Approved && a.tool_version == version {
            "approved"@
        } else {
            "outdated"@
        },
        None => "pending"@,
    }
}

/// The status a listing shows for a tool.
pub fn tool_status_name(approval: &Option<ToolApproval>, version: i32) -> (r: &'static str)
    ensures
        r@ == tool_status(*approval, version),
{
    if crate::approval::is_approved(approval, version) {
        "approved"
    } else if approval.is_some() {
        "outdated"
    } else {
        "pending"
    }
}

/// Where the operator reviews tool `rkey`.
pub open spec fn review_url(web_base: Seq<char>, rkey: Seq<char>) -> Seq<char> {
    web_base + "/tools/"@ + rkey
}

/// The notice's line on secrets: the names joined, or `None`.
pub open spec fn secrets_text(secrets: Seq<Seq<char>>) -> Seq<char> {
    if secrets.len() == 0 {
        "None"@
    } else {
        join_with(secrets, ", "@)
    }
}

/// The notice's line on commands, where the tool asks for any.
pub open spec fn commands_text(commands: Seq<Seq<char>>) -> Seq<char> {
    if commands.len() == 0 {
        ""@
    } else {
        "\nRequired commands: "@ + join_with(commands, ", "@)
    }
}

/// The text of the notice before the review link.
pub open spec fn notice_prefix(name: Seq<char>, secrets: Seq<Seq<char>>, commands: Seq<Seq<char>>) -> Seq<char> {
    "I created/updated a tool \""@ + name + "\" that needs your approval.\n\nRequired secrets: "@
        + secrets_text(secrets) + commands_text(commands) + "\n\nPlease review at "@
}

/// The UTF-8 encoding of two texts one after the other is the encoding of
/// the first followed by that of the second.
pub proof fn lemma_encode_utf8_concat(a: Seq<char>, b: Seq<char>)
    ensures
        vstd::utf8::encode_utf8(a + b) == vstd::utf8::encode_utf8(a) + vstd::utf8::encode_utf8(b),
    decreases a.len(),
{
    if a.len() == 0 {
        assert(a + b =~= b);
        assert(vstd::utf8::encode_utf8(a) =~= Seq::<u8>::empty());
        assert(Seq::<u8>::empty() + vstd::utf8::encode_utf8(b) =~= vstd::utf8::encode_utf8(b));
    } else {
        lemma_encode_utf8_concat(a.drop_first(), b);
        assert((a + b).drop_first() =~= a.drop_first() + b);
        assert((a + b)[0] == a[0]);
        let e = vstd::utf8::encode_scalar(a[0] as u32);
        assert(e + (vstd::utf8::encode_utf8(a.drop_first()) + vstd::utf8::encode_utf8(b)) =~= (e
            + vstd::utf8::encode_utf8(a.drop_first())) + vstd::utf8::encode_utf8(b));
    }
}

/// The direct message that asks the operator to review tool `name`, kept
/// under `rkey`: what it needs, then a link to the review page of the web
/// interface at `web_base`.  The link is marked by a facet whose byte range
/// is exactly that of the URL in the message's UTF-8 encoding.
pub fn approval_notice(
    name: &str,
    rkey: &str,
    secrets: &Vec<String>,
    commands: &Vec<String>,
    web_base: &str,
) -> (r: (String, Facet))
    ensures
        ({
            let prefix = notice_prefix(name@, string_views(secrets@), string_views(commands@));
            let url = review_url(web_base@, rkey@);
            &&& r.0@ == prefix + url
            &&& r.1.index.byte_start == utf8_len(prefix)
            &&& r.1.index.byte_end == utf8_len(prefix) + utf8_len(url)
            &&& r.1.features@.len() == 1
            &&& r.1.features@[0] matches FacetFeature::Link { uri } && uri@ == url
            &&& vstd::utf8::encode_utf8(r.0@).subrange(
                r.1.index.byte_start as int,
                r.1.index.byte_end as int,
            ) == vstd::utf8::encode_utf8(url)
        }),
{
    let mut url = String::from_str(web_base);
    url.append("/tools/");
    url.append(rkey);
    let secrets_line = if secrets.len() == 0 {
        String::from_str("None")
    } else {
        join_strings(secrets, ", ")
    };
    let mut prefix = String::from_str("I created/updated a tool \"");
    prefix.append(name);
    prefix.append("\" that needs your approval.\n\nRequired secrets: ");
    prefix.append(secrets_line.as_str());
    let ghost s0 = prefix@;
    assert(s0 =~= "I created/updated a tool \""@ + name@ + "\" that needs your approval.\n\nRequired secrets: "@
        + secrets_text(string_views(secrets@)));
    if commands.len() > 0 {
        let joined = join_strings(commands, ", ");
        prefix.append("\nRequired commands: ");
        prefix.append(joined.as_str());
        assert(prefix@ =~= s0 + commands_text(string_views(commands@)));
    } else {
        proof {
            reveal_strlit("");
        }
        assert(prefix@ =~= s0 + commands_text(string_views(commands@)));
    }
    prefix.append("\n\nPlease review at ");
    assert(prefix@ =~= notice_prefix(name@, string_views(secrets@), string_views(commands@)));
    link_message(prefix, url)
}

// ---------------------------------------------------------------------------
// Running a tool
// ---------------------------------------------------------------------------

/// The internal endpoint that chained tool calls go to when the HTTP server
/// has not announced one.
pub open spec fn default_internal_url() -> Seq<char> {
    "http://127.0.0.1:3847"@
}

/// A sandboxed run: no network, secrets, workspace, commands or tools.
pub open spec fn sandboxed(p: DenoPermissions) -> bool {
    &&& !p.network
    &&& p.secrets@.len() == 0
    &&& p.workspace is None
    &&& p.allowed_commands@.len() == 0
    &&& p.allowed_tools@.len() == 0
    &&& p.tool_name_map@.len() == 0
    &&& p.tool_token is None
    &&& p.mcp_url is None
}

/// The permissions of a sandboxed run.  Tools that are not approved run
/// so, and so do tools fetched from another agent's PDS, whose code nobody
/// here approved.
pub fn sandbox_permissions() -> (r: DenoPermissions)
    ensures
        sandboxed(r),
{
    DenoPermissions {
        network: false,
        secrets: Vec::new(),
        workspace: None,
        allowed_commands: Vec::new(),
        allowed_tools: Vec::new(),
        tool_name_map: Vec::new(),
        tool_token: None,
        mcp_url: None,
    }
}

/// The permissions of a run of a tool of version `version`, and whether
/// the run is sandboxed.  A tool approved for that version runs with what
/// its approval grants: network only when it allows it, the approved
/// secrets that have values (by `SecretManager::get_subset`), its commands
/// and chained tools, with `tool_name_map`, and, when it may chain tools,
/// the session token and the internal endpoint (`internal_url`, or the
/// default one).  Any other tool runs sandboxed.
pub fn run_permissions(
    approval: Option<ToolApproval>,
    version: i32,
    secrets: &SecretManager,
    tool_name_map: Vec<(String, String)>,
    tool_token: Option<String>,
    internal_url: Option<&str>,
) -> (r: (DenoPermissions, bool))
    requires
        secrets.wf(),
    ensures
        r.1 == !(approval matches Some(a) && a.status == ToolApprovalStatus::Approved && a.tool_version
            == version),
        r.1 ==> sandboxed(r.0),
        !r.1 ==> ({
            let a = approval->0;
            let p = r.0;
            &&& p.network == (a.allow_network == Some(true))
            &&& p.workspace is None
            &&& p.allowed_commands == a.allowed_commands
            &&& p.allowed_tools == a.allowed_tools
            &&& p.tool_name_map == tool_name_map
            &&& keys_distinct(p.secrets@)
            &&& forall|k: Seq<char>|
                #![trigger entries_map(p.secrets@).contains_key(k)]
                entries_map(p.secrets@).contains_key(k) <==> exists|n: Seq<char>|
                    #![trigger secrets@.contains_key(n)]
                    string_views(a.allowed_secrets@).contains(n) && secrets@.contains_key(n) && k
                        == env_prefix() + n
            &&& forall|n: Seq<char>|
                #![trigger secrets@.contains_key(n)]
                string_views(a.allowed_secrets@).contains(n) && secrets@.contains_key(n)
                    ==> entries_map(p.secrets@)[env_prefix() + n] == secrets@[n]
            &&& p.tool_token == if a.allowed_tools@.len() > 0 { tool_token } else { None }
            &&& match p.mcp_url {
                Some(u) => a.allowed_tools@.len() > 0 && u@ == match internal_url {
                    Some(i) => i@,
                    None => default_internal_url(),
                },
                None => a.allowed_tools@.len() == 0,
            }
        }),
{
    if !crate::approval::is_approved(&approval, version) {
        return (sandbox_permissions(), true);
    }
    let a = match approval {
        Some(a) => a,
        None => {
            return (sandbox_permissions(), true);
        },
    };
    let secret_values = secrets.get_subset(a.allowed_secrets.as_slice());
    let network = match a.allow_network {
        Some(b) => b,
        None => false,
    };
    let chaining = a.allowed_tools.len() > 0;
    let (token, url) = if chaining {
        let u = match internal_url {
            Some(i) => String::from_str(i),
            None => String::from_str("http://127.0.0.1:3847"),
        };
        (tool_token, Some(u))
    } else {
        (None, None)
    };
    (
        DenoPermissions {
            network,
            secrets: secret_values,
            workspace: None,
            allowed_commands: a.allowed_commands,
            allowed_tools: a.allowed_tools,
            tool_name_map,
            tool_token: token,
            mcp_url: url,
        },
        false,
    )
}

/// A run never has more than the tool's approval grants: a sandboxed run
/// has nothing; any other has network only when the approval allows it,
/// exactly the approval's commands and tools, and only secrets the
/// approval names.
pub proof fn law_run_within_approval(
    approval: Option<ToolApproval>,
    version: i32,
    secrets: SecretManager,
    tool_name_map: Seq<(String, String)>,
    p: DenoPermissions,
    is_sandboxed: bool,
)
    requires
        is_sandboxed == !(approval matches Some(a) && a.status == ToolApprovalStatus::Approved
            && a.tool_version == version),
        is_sandboxed ==> sandboxed(p),
        !is_sandboxed ==> ({
            let a = approval->0;
            &&& p.network == (a.allow_network == Some(true))
            &&& p.allowed_commands == a.allowed_commands
            &&& p.allowed_tools == a.allowed_tools
            &&& forall|k: Seq<char>|
                #![trigger entries_map(p.secrets@).contains_key(k)]
                entries_map(p.secrets@).contains_key(k) <==> exists|n: Seq<char>|
                    #![trigger secrets@.contains_key(n)]
                    string_views(a.allowed_secrets@).contains(n) && secrets@.contains_key(n) && k
                        == env_prefix() + n
        }),
    ensures
        p.network ==> (approval matches Some(a) && a.allow_network == Some(true)),
        forall|k: Seq<char>|
            #![trigger entries_map(p.secrets@).contains_key(k)]
            entries_map(p.secrets@).contains_key(k) ==> (approval matches Some(a) && exists|n: Seq<char>|
                string_views(a.allowed_secrets@).contains(n) && k == env_prefix() + n),
        p.allowed_commands@.len() > 0 ==> (approval matches Some(a) && p.allowed_commands == a.allowed_commands),
{
    if is_sandboxed {
        assert forall|k: Seq<char>| #![trigger entries_map(p.secrets@).contains_key(k)]
            !entries_map(p.secrets@).contains_key(k) by {
            assert(p.secrets@.len() == 0);
        }
    }
}

/// What the tool reports when a run fails: `Tool execution failed`, noting
/// a sandboxed run, and the executor's error.
pub fn run_failure_message(sandboxed_run: bool, error: &str) -> (r: String)
    ensures
        r@ == "Tool execution failed"@ + (if sandboxed_run { " (sandboxed mode)"@ } else { ""@ }) + ": "@
            + error@,
{
    let mut m = String::from_str("Tool execution failed");
    if sandboxed_run {
        m.append(" (sandboxed mode)");
    } else {
        proof {
            reveal_strlit("");
        }
    }
    m.append(": ");
    m.append(error);
    assert(m@ =~= "Tool execution failed"@ + (if sandboxed_run { " (sandboxed mode)"@ } else { ""@ }) + ": "@
        + error@);
    m
}

// ---------------------------------------------------------------------------
// Asking the operator for a secret
// ---------------------------------------------------------------------------

/// Why a request for a secret is refused, if it is: the name must be made
/// of ASCII letters, digits and underscores, at most 64 bytes long, come
/// with a description, and not name a secret already asked for.
pub open spec fn secret_request_error(m: Seq<(String, JsonValue)>, known: Seq<Seq<char>>) -> Option<Seq<char>> {
    match member_text(m, "name"@) {
        None => Some("Missing required parameter: name"@),
        Some(n) => if !(forall|i: int| 0 <= i < n.len() ==> name_char_ok(#[trigger] n[i])) {
            Some("Secret name must be alphanumeric with underscores only"@)
        } else if utf8_len(n) > 64 {
            Some("Secret name too long (max 64 chars)"@)
        } else if member_text(m, "description"@) is None {
            Some("Missing required parameter: description"@)
        } else if known.contains(n) {
            Some("Secret '"@ + n + "' already exists"@)
        } else {
            None
        },
    }
}

/// Check a request for a new secret against the names already asked for;
/// the name and description to record.
pub fn secret_request(arguments: &Vec<(String, JsonValue)>, known: &Vec<String>) -> (r: Result<(String, String), String>)
    ensures
        match r {
            Ok((n, d)) => secret_request_error(arguments@, string_views(known@)) is None && member_text(
                arguments@,
                "name"@,
            ) == Some(n@) && member_text(arguments@, "description"@) == Some(d@),
            Err(e) => secret_request_error(arguments@, string_views(known@)) == Some(e@),
        },
{
    let name = match member_str(arguments, "name") {
        Some(n) => n,
        None => {
            return Err(String::from_str("Missing required parameter: name"));
        },
    };
    let v = crate::text::str_chars(name);
    let mut i: usize = 0;
    while i < v.len()
        invariant
            i <= v@.len(),
            v@ == name@,
            member_text(arguments@, "name"@) == Some(name@),
            forall|k: int| 0 <= k < i ==> name_char_ok(#[trigger] v@[k]),
        decreases v@.len() - i,
    {
        let c = v[i];
        if !(('0' <= c && c <= '9') || ('a' <= c && c <= 'z') || ('A' <= c && c <= 'Z') || c == '_') {
            assert(!name_char_ok(name@[i as int]));
            return Err(String::from_str("Secret name must be alphanumeric with underscores only"));
        }
        i = i + 1;
    }
    let n = name.as_bytes().len();
    assert(n == utf8_len(name@));
    if n > 64 {
        return Err(String::from_str("Secret name too long (max 64 chars)"));
    }
    let description = match member_str(arguments, "description") {
        Some(d) => d,
        None => {
            return Err(String::from_str("Missing required parameter: description"));
        },
    };
    match position_in(known, name) {
        Some(j) => {
            assert(string_views(known@)[j as int] == name@);
            let mut msg = String::from_str("Secret '");
            msg.append(name);
            msg.append("' already exists");
            Err(msg)
        },
        None => Ok((String::from_str(name), String::from_str(description))),
    }
}

/// The direct message that asks the operator for secret `name`, with a
/// link to the secrets page of the web interface at `web_base`, marked by a
/// facet over exactly the URL's bytes.
pub fn secret_notice(name: &str, description: &str, web_base: &str) -> (r: (String, Facet))
    ensures
        ({
            let prefix = "I need a new secret \""@ + name@ + "\".\n\nDescription: "@ + description@
                + "\n\nPlease add it at "@;
            let url = web_base@ + "/secrets"@;
            &&& r.0@ == prefix + url
            &&& r.1.index.byte_start == utf8_len(prefix)
            &&& r.1.index.byte_end == utf8_len(prefix) + utf8_len(url)
            &&& r.1.features@.len() == 1
            &&& r.1.features@[0] matches FacetFeature::Link { uri } && uri@ == url
            &&& vstd::utf8::encode_utf8(r.0@).subrange(
                r.1.index.byte_start as int,
                r.1.index.byte_end as int,
            ) == vstd::utf8::encode_utf8(url)
        }),
{
    let mut url = String::from_str(web_base);
    url.append("/secrets");
    let mut prefix = String::from_str("I need a new secret \"");
    prefix.append(name);
    prefix.append("\".\n\nDescription: ");
    prefix.append(description);
    prefix.append("\n\nPlease add it at ");
    link_message(prefix, url)
}

/// `prefix` followed by `url`, with a link facet over exactly the URL's
/// bytes.
fn link_message(prefix: String, url: String) -> (r: (String, Facet))
    ensures
        r.0@ == prefix@ + url@,
        r.1.index.byte_start == utf8_len(prefix@),
        r.1.index.byte_end == utf8_len(prefix@) + utf8_len(url@),
        r.1.features@.len() == 1,
        r.1.features@[0] matches FacetFeature::Link { uri } && uri@ == url@,
        vstd::utf8::encode_utf8(r.0@).subrange(r.1.index.byte_start as int, r.1.index.byte_end as int)
            == vstd::utf8::encode_utf8(url@),
{
    let start = prefix.as_str().as_bytes().len();
    let len = url.as_str().as_bytes().len();
    assert(start == utf8_len(prefix@));
    assert(len == utf8_len(url@));
    let ghost p = prefix@;
    let mut message = prefix;
    message.append(url.as_str());
    proof {
        lemma_encode_utf8_concat(p, url@);
        assert(vstd::utf8::encode_utf8(p + url@).subrange(start as int, start + len) =~= vstd::utf8::encode_utf8(
            url@,
        ));
    }
    let total = message.as_str().as_bytes().len();
    assert(total == start + len);
    let facet = Facet {
        index: ByteSlice { byte_start: start as u64, byte_end: total as u64 },
        features: vec![FacetFeature::Link { uri: url }],
    };
    (message, facet)
}

// ---------------------------------------------------------------------------
// Finding a tool by name
// ---------------------------------------------------------------------------

/// Find the first of the stored tools (each with its AT URI) named `name`:
/// its position and its record key (the URI's last segment).
pub fn find_tool_by_name(records: &Vec<(String, CustomTool)>, name: &str) -> (r: Option<(usize, String)>)
    ensures
        match r {
            Some((i, rkey)) => i < records@.len() && records@[i as int].1.name@ == name@ && rkey@ == rkey_of(
                records@[i as int].0@,
            ) && forall|j: int| 0 <= j < i ==> (#[trigger] records@[j]).1.name@ != name@,
            None => forall|j: int| 0 <= j < records@.len() ==> (#[trigger] records@[j]).1.name@ != name@,
        },
{
    let mut i: usize = 0;
    while i < records.len()
        invariant
            i <= records@.len(),
            forall|j: int| 0 <= j < i ==> (#[trigger] records@[j]).1.name@ != name@,
        decreases records@.len() - i,
    {
        if crate::text::str_eq(records[i].1.name.as_str(), name) {
            return Some((i, extract_rkey(records[i].0.as_str())));
        }
        i = i + 1;
    }
    None
}

// ---------------------------------------------------------------------------
// A created tool
// ---------------------------------------------------------------------------

/// What creating a tool reports and does after its record is written: a
/// tool that can be approved automatically is approved at once, by an
/// approval stored under the tool's own record key; any other waits for
/// the operator, who is notified.
#[derive(Debug)]
pub struct CreatedTool {
    pub version: i32,
    /// `approved` or `pending_approval`.
    pub status: &'static str,
    pub auto_approved: bool,
    /// The approval to store, with the record key to store it under.
    pub approval: Option<(String, ToolApproval)>,
    /// Whether the operator is sent the approval notice.
    pub notify_operator: bool,
    pub message: &'static str,
}

/// The message reported for a created tool.
pub open spec fn created_message(auto: bool) -> Seq<char> {
    if auto {
        "Tool created and auto-approved. Ready to run."@
    } else {
        "Tool created. The operator has been notified for approval. You can test it sandboxed with run_custom_tool."@
    }
}

/// The outcome of creating `tool` (a new record, version 1) under `rkey`;
/// `our_did` and `local_tools` are what the automatic approval checks the
/// tools it chains to against.
pub fn created_tool(
    tool: &CustomTool,
    rkey: &str,
    our_did: Option<&str>,
    local_tools: &Vec<(String, CustomTool)>,
) -> (r: CreatedTool)
    requires
        tool.version == 1,
    ensures
        ({
            let auto = auto_approvable(*tool, opt_str(our_did), local_tools@);
            &&& r.version == 1
            &&& r.auto_approved == auto
            &&& r.status@ == if auto { "approved"@ } else { "pending_approval"@ }
            &&& r.notify_operator == !auto
            &&& r.message@ == created_message(auto)
            &&& auto ==> (r.approval matches Some((k, a)) && k@ == rkey@
                && a.status == ToolApprovalStatus::Approved && a.tool_version == 1
                && a.allow_network == Some(false) && a.allowed_secrets@.len() == 0
                && a.allowed_commands@.len() == 0
                && string_views(a.allowed_tools@) == string_views(tool.required_tools@)
                && string_opt_view(a.approved_by) == Some("auto"@)
                && string_opt_view(a.reason) == Some(auto_reason(false)))
            &&& !auto ==> r.approval is None
        }),
{
    if is_auto_approvable(tool, our_did, local_tools) {
        let approval = auto_approval(tool, false);
        CreatedTool {
            version: 1,
            status: "approved",
            auto_approved: true,
            approval: Some((String::from_str(rkey), approval)),
            notify_operator: false,
            message: "Tool created and auto-approved. Ready to run.",
        }
    } else {
        CreatedTool {
            version: 1,
            status: "pending_approval",
            auto_approved: false,
            approval: None,
            notify_operator: true,
            message: "Tool created. The operator has been notified for approval. You can test it sandboxed with run_custom_tool.",
        }
    }
}

// ---------------------------------------------------------------------------
// What a run reports
// ---------------------------------------------------------------------------

/// A chaining session is registered for a run only when the tool is
/// approved for its version and its approval lets it call other tools.
pub open spec fn session_needed_spec(approval: Option<ToolApproval>, version: i32) -> bool {
    approval matches Some(a) && a.status == ToolApprovalStatus::Approved && a.tool_version == version
        && a.allowed_tools@.len() > 0
}

/// Whether a run registers a chaining session.
pub fn session_needed(approval: &Option<ToolApproval>, version: i32) -> (r: bool)
    ensures
        r == session_needed_spec(*approval, version),
{
    match approval {
        Some(a) => crate::approval::is_approved(approval, version) && a.allowed_tools.len() > 0,
        None => false,
    }
}

/// What a run of a custom tool reports.
#[derive(Debug)]
pub enum RunReport {
    /// The tool's result, how long it ran, whether it ran sandboxed, and
    /// what it wrote to stderr, where it wrote anything.
    Done { result: JsonValue, duration_ms: u64, sandboxed: bool, stderr: Option<String> },
    /// Why the run failed.
    Failed(String),
}

/// The report of a run, sandboxed or not, from the executor's outcome: the
/// result, duration and stderr of a finished run, or its error.
pub fn run_report(sandboxed_run: bool, outcome: Result<(JsonValue, u64, String), String>) -> (r: RunReport)
    ensures
        match outcome {
            Ok((result, duration, stderr)) => r matches RunReport::Done {
                result: res,
                duration_ms,
                sandboxed,
                stderr: err,
            } && res == result && duration_ms == duration && sandboxed == sandboxed_run && (match err {
                Some(e) => stderr@.len() > 0 && e@ == stderr@,
                None => stderr@.len() == 0,
            }),
            Err(e) => r matches RunReport::Failed(m) && m@ == "Tool execution failed"@ + (if sandboxed_run {
                " (sandboxed mode)"@
            } else {
                ""@
            }) + ": "@ + e@,
        },
{
    match outcome {
        Ok((result, duration_ms, stderr)) => {
            let err = if stderr.unicode_len() == 0 {
                None
            } else {
                Some(stderr)
            };
            RunReport::Done { result, duration_ms, sandboxed: sandboxed_run, stderr: err }
        },
        Err(e) => RunReport::Failed(run_failure_message(sandboxed_run, e.as_str())),
    }
}

/// A tool that is not approved for its version runs with nothing: no
/// chaining session is registered for it, and its permissions are those of
/// a sandbox (as `run_permissions` gives them when it reports a sandboxed
/// run).
pub proof fn law_unapproved_run_registers_nothing(approval: Option<ToolApproval>, version: i32)
    requires
        !(approval matches Some(a) && a.status == ToolApprovalStatus::Approved && a.tool_version == version),
    ensures
        !session_needed_spec(approval, version),
{
}

} // verus!
