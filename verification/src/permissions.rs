//! Permission model for custom tool chaining.
//!
//! A permission vector is one point of a product lattice over independent
//! dimensions: network access, secrets, commands and MCP tools.  A tool
//! may call another tool only if it dominates the callee in every
//! dimension.  Custom tools are named by AT URI
//! (`at://did/collection/rkey`); built-in MCP tools by plain names.

use vstd::prelude::*;
use std::cmp::Ordering;
use crate::json::JsonValue;
use crate::text::{
    contains_seq, has_prefix, join_with, str_chars, chars_contains, str_eq, str_starts_with,
    join_strings, first_from, find_char_from,
};
use crate::strset::{
    StrSet, string_views, sorted_list, position_in, keys_distinct, entry_keys, entries_map,
    lemma_entries_map_at, lemma_entries_map_push, lemma_entries_map_update,
    lemma_entries_map_remove,
};

verus! {

// ---------------------------------------------------------------------------
// Names and AT URIs
// ---------------------------------------------------------------------------

/// The built-in MCP tools that may be called without operator approval;
/// all of them only read state.
pub open spec fn safe_tool_names() -> Seq<Seq<char>> {
    seq![
        "query_facts"@,
        "list_rules"@,
        "list_directives"@,
        "list_jobs"@,
        "list_notes"@,
        "get_note"@,
        "list_facts"@,
        "list_fact_declarations"@,
        "get_thread_context"@,
        "search_posts"@,
        "get_identity"@,
        "query_and_enrich"@,
        "list_predicates"@,
        "list_custom_tools"@,
        "get_custom_tool"@,
        "list_secrets"@,
        "list_thoughts"@,
        "get_thought"@,
        "list_blog_posts"@,
        "get_blog_post"@,
        "check_interruption"@,
        "pds_list_records"@,
        "pds_get_record"@,
        "pds_get_records"@,
        "search_users"@,
    ]
}

/// Whether a name is one of the safe built-in MCP tools.
pub open spec fn is_safe_tool_name(name: Seq<char>) -> bool {
    safe_tool_names().contains(name)
}

/// Whether a name is an AT URI, i.e. refers to a custom tool on some PDS.
pub open spec fn is_at_uri_spec(s: Seq<char>) -> bool {
    has_prefix(s, "at://"@)
}

/// The (did, collection, rkey) of an AT URI: the text after `at://` split
/// at its first two slashes, each part non-empty; `None` otherwise.
pub open spec fn at_uri_parts(u: Seq<char>) -> Option<(Seq<char>, Seq<char>, Seq<char>)> {
    if !is_at_uri_spec(u) {
        None
    } else {
        let a = first_from(u, '/', 5);
        let b = first_from(u, '/', a + 1);
        if a >= u.len() || b >= u.len() {
            None
        } else {
            let did = u.subrange(5, a);
            let collection = u.subrange(a + 1, b);
            let rkey = u.subrange(b + 1, u.len() as int);
            if did.len() == 0 || collection.len() == 0 || rkey.len() == 0 {
                None
            } else {
                Some((did, collection, rkey))
            }
        }
    }
}

/// An AT URI is read into its parts exactly when it is `at://`, a DID, `/`,
/// a collection, `/` and a record key, all non-empty, where neither the DID
/// nor the collection holds a `/` (the record key may).
pub proof fn law_at_uri_parts_round_trip(u: Seq<char>, did: Seq<char>, collection: Seq<char>, rkey: Seq<char>)
    ensures
        at_uri_parts(u) == Some((did, collection, rkey)) <==> (u == "at://"@ + did + "/"@ + collection + "/"@
            + rkey && did.len() > 0 && collection.len() > 0 && rkey.len() > 0 && !did.contains('/')
            && !collection.contains('/')),
{
    reveal_strlit("at://");
    reveal_strlit("/");
    if at_uri_parts(u) == Some((did, collection, rkey)) {
        crate::text::lemma_first_from(u, '/', 5);
        let a = first_from(u, '/', 5);
        crate::text::lemma_first_from(u, '/', a + 1);
        let b = first_from(u, '/', a + 1);
        assert(u.subrange(0, 5) == "at://"@);
        assert(u =~= "at://"@ + did + "/"@ + collection + "/"@ + rkey);
        assert(!did.contains('/')) by {
            if did.contains('/') {
                let j = choose|j: int| 0 <= j < did.len() && did[j] == '/';
                assert(u[5 + j] == '/');
            }
        }
        assert(!collection.contains('/')) by {
            if collection.contains('/') {
                let j = choose|j: int| 0 <= j < collection.len() && collection[j] == '/';
                assert(u[a + 1 + j] == '/');
            }
        }
    }
    if u == "at://"@ + did + "/"@ + collection + "/"@ + rkey && did.len() > 0 && collection.len() > 0
        && rkey.len() > 0 && !did.contains('/') && !collection.contains('/') {
        let a: int = 5 + did.len() as int;
        let b: int = a + 1 + collection.len();
        assert(u.subrange(0, 5) =~= "at://"@);
        assert(has_prefix(u, "at://"@));
        assert(u[a] == '/');
        assert forall|j: int| 5 <= j < a implies u[j] != '/' by {
            assert(u[j] == did[j - 5]);
        }
        crate::text::lemma_first_from_at(u, '/', 5, a);
        assert(u[b] == '/');
        assert forall|j: int| a + 1 <= j < b implies u[j] != '/' by {
            assert(u[j] == collection[j - a - 1]);
        }
        crate::text::lemma_first_from_at(u, '/', a + 1, b);
        assert(u.subrange(5, a) =~= did);
        assert(u.subrange(a + 1, b) =~= collection);
        assert(u.subrange(b + 1, u.len() as int) =~= rkey);
    }
}

/// Check if an MCP tool name is in the safe list.
pub fn is_safe_mcp_tool(name: &str) -> (r: bool)
    ensures
        r == is_safe_tool_name(name@),
{
    let names: Vec<&str> = vec![
        "query_facts",
        "list_rules",
        "list_directives",
        "list_jobs",
        "list_notes",
        "get_note",
        "list_facts",
        "list_fact_declarations",
        "get_thread_context",
        "search_posts",
        "get_identity",
        "query_and_enrich",
        "list_predicates",
        "list_custom_tools",
        "get_custom_tool",
        "list_secrets",
        "list_thoughts",
        "get_thought",
        "list_blog_posts",
        "get_blog_post",
        "check_interruption",
        "pds_list_records",
        "pds_get_record",
        "pds_get_records",
        "search_users",
    ];
    let ghost views = names@.map_values(|s: &str| s@);
    assert(views =~= safe_tool_names());
    let mut i: usize = 0;
    while i < names.len()
        invariant
            i <= names.len(),
            views == names@.map_values(|s: &str| s@),
            views == safe_tool_names(),
            forall|k: int| 0 <= k < i ==> views[k] != name@,
        decreases names.len() - i,
    {
        if str_eq(names[i], name) {
            assert(views[i as int] == name@);
            return true;
        }
        i = i + 1;
    }
    false
}

/// Check if a string is an AT URI (references a custom tool on some PDS).
pub fn is_at_uri(s: &str) -> (r: bool)
    ensures
        r == is_at_uri_spec(s@),
{
    str_starts_with(s, "at://")
}

/// Parse an AT URI into (did, collection, rkey).
/// Returns None if the URI is not a valid AT URI.
pub fn parse_at_uri(uri: &str) -> (r: Option<(&str, &str, &str)>)
    ensures
        match r {
            Some((did, collection, rkey)) => at_uri_parts(uri@) == Some((did@, collection@, rkey@)),
            None => at_uri_parts(uri@) is None,
        },
{
    if !is_at_uri(uri) {
        return None;
    }
    proof {
        reveal_strlit("at://");
    }
    let v = str_chars(uri);
    let a = find_char_from(&v, '/', 5);
    if a >= v.len() {
        return None;
    }
    let b = find_char_from(&v, '/', a + 1);
    if b >= v.len() {
        return None;
    }
    if a == 5 || b == a + 1 || b + 1 == v.len() {
        return None;
    }
    let did = uri.substring_char(5, a);
    let collection = uri.substring_char(a + 1, b);
    let rkey = uri.substring_char(b + 1, v.len());
    Some((did, collection, rkey))
}

/// The quoted prefixes of remote ES module specifiers.
pub open spec fn remote_prefixes() -> Seq<Seq<char>> {
    seq![
        "\"https://"@,
        "'https://"@,
        "\"http://"@,
        "'http://"@,
        "\"npm:"@,
        "'npm:"@,
        "\"jsr:"@,
        "'jsr:"@,
    ]
}

/// The ways a module can be imported, static and dynamic.
pub open spec fn import_forms() -> Seq<Seq<char>> {
    seq!["from "@, "import "@, "import("@, "import ("@]
}

/// Calls of network APIs.
pub open spec fn network_apis() -> Seq<Seq<char>> {
    seq!["fetch("@, "Deno.connect"@, "new WebSocket"@, "new EventSource"@]
}

/// Tool code needs the network when it imports a remote module (an import
/// form directly followed by a quoted remote prefix) or calls a network API.
pub open spec fn needs_network(code: Seq<char>) -> bool {
    ||| exists|i: int, j: int|
        0 <= i < remote_prefixes().len() && 0 <= j < import_forms().len() && contains_seq(
            code,
            #[trigger] import_forms()[j] + #[trigger] remote_prefixes()[i],
        )
    ||| exists|k: int| 0 <= k < network_apis().len() && contains_seq(code, #[trigger] network_apis()[k])
}

/// Detect if tool code needs network access based on common patterns.
/// Catches remote imports, fetch calls, and other network APIs that
/// would fail without `--allow-net`.
pub fn code_needs_network(code: &str) -> (r: bool)
    ensures
        r == needs_network(code@),
{
    let cv = str_chars(code);
    let prefixes: Vec<&str> = vec![
        "\"https://",
        "'https://",
        "\"http://",
        "'http://",
        "\"npm:",
        "'npm:",
        "\"jsr:",
        "'jsr:",
    ];
    let forms: Vec<&str> = vec!["from ", "import ", "import(", "import ("];
    let apis: Vec<&str> = vec!["fetch(", "Deno.connect", "new WebSocket", "new EventSource"];
    assert(prefixes@.map_values(|s: &str| s@) =~= remote_prefixes());
    assert(forms@.map_values(|s: &str| s@) =~= import_forms());
    assert(apis@.map_values(|s: &str| s@) =~= network_apis());
    let mut i: usize = 0;
    while i < prefixes.len()
        invariant
            i <= prefixes.len(),
            cv@ == code@,
            prefixes@.map_values(|s: &str| s@) == remote_prefixes(),
            forms@.map_values(|s: &str| s@) == import_forms(),
            forall|a: int, b: int|
                0 <= a < i && 0 <= b < import_forms().len() ==> !contains_seq(
                    code@,
                    #[trigger] import_forms()[b] + #[trigger] remote_prefixes()[a],
                ),
        decreases prefixes.len() - i,
    {
        let mut j: usize = 0;
        while j < forms.len()
            invariant
                i < prefixes.len(),
                j <= forms.len(),
                cv@ == code@,
                prefixes@.map_values(|s: &str| s@) == remote_prefixes(),
                forms@.map_values(|s: &str| s@) == import_forms(),
                forall|a: int, b: int|
                    0 <= a < i && 0 <= b < import_forms().len() ==> !contains_seq(
                        code@,
                        #[trigger] import_forms()[b] + #[trigger] remote_prefixes()[a],
                    ),
                forall|b: int|
                    0 <= b < j ==> !contains_seq(
                        code@,
                        #[trigger] import_forms()[b] + remote_prefixes()[i as int],
                    ),
            decreases forms.len() - j,
        {
            let pattern = String::from_str(forms[j]).concat(prefixes[i]);
            let pv = str_chars(pattern.as_str());
            assert(pv@ == import_forms()[j as int] + remote_prefixes()[i as int]);
            if chars_contains(&cv, &pv) {
                return true;
            }
            j = j + 1;
        }
        i = i + 1;
    }
    let mut k: usize = 0;
    while k < apis.len()
        invariant
            k <= apis.len(),
            cv@ == code@,
            apis@.map_values(|s: &str| s@) == network_apis(),
            forall|a: int, b: int|
                0 <= a < remote_prefixes().len() && 0 <= b < import_forms().len() ==> !contains_seq(
                    code@,
                    #[trigger] import_forms()[b] + #[trigger] remote_prefixes()[a],
                ),
            forall|c: int| 0 <= c < k ==> !contains_seq(code@, #[trigger] network_apis()[c]),
        decreases apis.len() - k,
    {
        let pv = str_chars(apis[k]);
        assert(pv@ == network_apis()[k as int]);
        if chars_contains(&cv, &pv) {
            return true;
        }
        k = k + 1;
    }
    false
}

// ---------------------------------------------------------------------------
// The permission lattice
// ---------------------------------------------------------------------------

/// The mathematical content of a permission vector.
#[verifier::ext_equal]
pub struct PermissionModel {
    pub network: bool,
    pub secrets: Set<Seq<char>>,
    pub commands: Set<Seq<char>>,
    pub mcp_tools: Set<Seq<char>>,
}

/// The least element: pure computation, no privileges.
pub open spec fn model_bottom() -> PermissionModel {
    PermissionModel {
        network: false,
        secrets: Set::empty(),
        commands: Set::empty(),
        mcp_tools: Set::empty(),
    }
}

/// `a` dominates `b` in every dimension.
pub open spec fn model_dominates(a: PermissionModel, b: PermissionModel) -> bool {
    &&& (a.network || !b.network)
    &&& b.secrets.subset_of(a.secrets)
    &&& b.commands.subset_of(a.commands)
    &&& b.mcp_tools.subset_of(a.mcp_tools)
}

/// The least upper bound: union of capabilities.
pub open spec fn model_join(a: PermissionModel, b: PermissionModel) -> PermissionModel {
    PermissionModel {
        network: a.network || b.network,
        secrets: a.secrets.union(b.secrets),
        commands: a.commands.union(b.commands),
        mcp_tools: a.mcp_tools.union(b.mcp_tools),
    }
}

/// Within the auto-approval threshold: no network, secrets or commands,
/// and only safe built-in MCP tools (never a custom tool's AT URI).
pub open spec fn model_is_safe(a: PermissionModel) -> bool {
    &&& !a.network
    &&& a.secrets.is_empty()
    &&& a.commands.is_empty()
    &&& forall|t: Seq<char>|
        #[trigger] a.mcp_tools.contains(t) ==> !is_at_uri_spec(t) && is_safe_tool_name(t)
}

/// The partial order of the lattice: `None` for incomparable vectors.
pub open spec fn model_partial_cmp(a: PermissionModel, b: PermissionModel) -> Option<Ordering> {
    if model_dominates(a, b) && model_dominates(b, a) {
        Some(Ordering::Equal)
    } else if model_dominates(a, b) {
        Some(Ordering::Greater)
    } else if model_dominates(b, a) {
        Some(Ordering::Less)
    } else {
        None
    }
}

/// A permission vector: one point in the product lattice.
///
/// Workspace access is not a dimension: every tool gets it.  `mcp_tools`
/// holds plain names of built-in MCP tools and AT URIs of custom tools.
#[derive(Debug, Clone, PartialEq, Eq)]
pub struct PermissionVec {
    pub network: bool,
    pub secrets: StrSet,
    pub commands: StrSet,
    pub mcp_tools: StrSet,
}

impl View for PermissionVec {
    type V = PermissionModel;

    open spec fn view(&self) -> PermissionModel {
        PermissionModel {
            network: self.network,
            secrets: self.secrets@,
            commands: self.commands@,
            mcp_tools: self.mcp_tools@,
        }
    }
}

/// A custom tool record (its timestamps aside): name, description, code,
/// the schema of its input, its version, and the permissions it requests.
#[derive(Debug)]
pub struct CustomTool {
    pub name: String,
    pub description: String,
    pub version: i32,
    pub code: String,
    pub input_schema: JsonValue,
    pub requires_workspace: Option<bool>,
    pub requires_network: Option<bool>,
    pub required_secrets: Vec<String>,
    pub required_commands: Vec<String>,
    pub required_tools: Vec<String>,
}

/// Where an approval stands.
#[derive(Debug, Clone, Copy, PartialEq, Eq, Structural)]
pub enum ToolApprovalStatus {
    Pending,
    Approved,
    Denied,
}

/// An approval of a custom tool: the version it was granted for, its
/// status, and the permissions granted.
#[derive(Debug)]
pub struct ToolApproval {
    pub tool_version: i32,
    pub status: ToolApprovalStatus,
    pub approved_by: Option<String>,
    pub reason: Option<String>,
    pub allow_network: Option<bool>,
    pub allowed_secrets: Vec<String>,
    pub allowed_commands: Vec<String>,
    pub allowed_tools: Vec<String>,
}

/// The permissions a custom tool requests: network as declared, or as
/// detected from its code when it declares nothing.
pub open spec fn tool_model(tool: CustomTool) -> PermissionModel {
    PermissionModel {
        network: match tool.requires_network {
            Some(b) => b,
            None => needs_network(tool.code@),
        },
        secrets: string_views(tool.required_secrets@).to_set(),
        commands: string_views(tool.required_commands@).to_set(),
        mcp_tools: string_views(tool.required_tools@).to_set(),
    }
}

/// The permissions an approval grants; network only when explicitly allowed.
pub open spec fn approval_model(approval: ToolApproval) -> PermissionModel {
    PermissionModel {
        network: approval.allow_network == Some(true),
        secrets: string_views(approval.allowed_secrets@).to_set(),
        commands: string_views(approval.allowed_commands@).to_set(),
        mcp_tools: string_views(approval.allowed_tools@).to_set(),
    }
}

/// The report of one dimension where a caller falls short: the label and
/// the missing names, sorted, in braces.
pub open spec fn dimension_report(label: Seq<char>, names: Seq<Seq<char>>) -> Seq<Seq<char>> {
    if names.len() == 0 {
        Seq::empty()
    } else {
        seq![label + ": {"@ + join_with(names, ", "@) + "}"@]
    }
}

/// Human-readable descriptions of the dimensions where `a` does not
/// dominate `b`: network first, then the secrets, commands and MCP tools
/// that `b` needs and `a` lacks.
pub open spec fn missing_spec(a: PermissionModel, b: PermissionModel) -> Seq<Seq<char>> {
    (if !a.network && b.network {
        seq!["network"@]
    } else {
        Seq::empty()
    }) + dimension_report("secrets"@, sorted_list(b.secrets.difference(a.secrets)))
        + dimension_report("commands"@, sorted_list(b.commands.difference(a.commands)))
        + dimension_report("mcp_tools"@, sorted_list(b.mcp_tools.difference(a.mcp_tools)))
}

/// `label: {n1, n2, ...}` for the members of `names`, or nothing if empty.
fn report_dimension(label: &str, names: &StrSet, out: &mut Vec<String>)
    requires
        names.wf(),
    ensures
        string_views(final(out)@) == string_views(old(out)@) + dimension_report(
            label@,
            sorted_list(names@),
        ),
{
    proof {
        names.lemma_elems_sorted();
    }
    if names.is_empty() {
        assert(string_views(out@) =~= string_views(out@) + dimension_report(label@, names.elems()));
        return;
    }
    let mut line = String::from_str(label);
    line.append(": {");
    let listed = names.to_vec();
    let joined = join_strings(&listed, ", ");
    line.append(joined.as_str());
    line.append("}");
    let ghost before = out@;
    out.push(line);
    assert(string_views(out@) =~= string_views(before) + dimension_report(label@, names.elems()));
}

impl PermissionVec {
    /// Well-formedness: every set is sorted.
    pub open spec fn wf(&self) -> bool {
        self.secrets.wf() && self.commands.wf() && self.mcp_tools.wf()
    }

    /// Bottom element: pure computation, no privileges.
    pub fn bottom() -> (r: PermissionVec)
        ensures
            r.wf(),
            r@ == model_bottom(),
    {
        PermissionVec {
            network: false,
            secrets: StrSet::new(),
            commands: StrSet::new(),
            mcp_tools: StrSet::new(),
        }
    }

    /// A copy with equal sets.
    pub fn duplicate(&self) -> (r: PermissionVec)
        ensures
            r@ == self@,
            r.secrets.elems() == self.secrets.elems(),
            r.commands.elems() == self.commands.elems(),
            r.mcp_tools.elems() == self.mcp_tools.elems(),
    {
        PermissionVec {
            network: self.network,
            secrets: self.secrets.duplicate(),
            commands: self.commands.duplicate(),
            mcp_tools: self.mcp_tools.duplicate(),
        }
    }

    /// True if this vector is within the auto-approval threshold:
    /// no network, no secrets, no commands, only safe built-in MCP tools.
    /// Any reference to a custom tool AT URI makes it unsafe.
    pub fn is_safe(&self) -> (r: bool)
        ensures
            r == model_is_safe(self@),
    {
        if self.network || !self.secrets.is_empty() || !self.commands.is_empty() {
            return false;
        }
        let mut i: usize = 0;
        while i < self.mcp_tools.len()
            invariant
                i <= self.mcp_tools.elems().len(),
                !self.network,
                self.secrets@ == Set::<Seq<char>>::empty(),
                self.commands@ == Set::<Seq<char>>::empty(),
                forall|k: int|
                    0 <= k < i ==> !is_at_uri_spec(#[trigger] self.mcp_tools.elems()[k])
                        && is_safe_tool_name(self.mcp_tools.elems()[k]),
            decreases self.mcp_tools.elems().len() - i,
        {
            let t = self.mcp_tools.get(i);
            let ghost x = self.mcp_tools.elems()[i as int];
            let at = is_at_uri(t.as_str());
            assert(t@ == x);
            assert(at == is_at_uri_spec(x));
            let safe = is_safe_mcp_tool(t.as_str());
            assert(safe == is_safe_tool_name(x));
            if at || !safe {
                assert(self@.mcp_tools.contains(x));
                return false;
            }
            assert(!is_at_uri_spec(x) && is_safe_tool_name(x));
            i = i + 1;
        }
        assert forall|t: Seq<char>| #[trigger] self.mcp_tools@.contains(t) implies !is_at_uri_spec(t)
            && is_safe_tool_name(t) by {
            let k = choose|k: int|
                0 <= k < self.mcp_tools.elems().len() && self.mcp_tools.elems()[k] == t;
            assert(is_safe_tool_name(self.mcp_tools.elems()[k]));
        }
        true
    }

    /// True if self dominates other in every dimension:
    /// A can call B iff A dominates B.
    pub fn dominates(&self, other: &PermissionVec) -> (r: bool)
        ensures
            r == model_dominates(self@, other@),
    {
        (self.network || !other.network) && other.secrets.is_subset(&self.secrets)
            && other.commands.is_subset(&self.commands) && other.mcp_tools.is_subset(
            &self.mcp_tools,
        )
    }

    /// Join (least upper bound): union of capabilities.
    pub fn join(&self, other: &PermissionVec) -> (r: PermissionVec)
        requires
            self.wf(),
        ensures
            r.wf(),
            r@ == model_join(self@, other@),
    {
        PermissionVec {
            network: self.network || other.network,
            secrets: self.secrets.union(&other.secrets),
            commands: self.commands.union(&other.commands),
            mcp_tools: self.mcp_tools.union(&other.mcp_tools),
        }
    }

    /// The requested permissions of a custom tool.  Network is detected
    /// from code patterns unless `requires_network` says otherwise.
    pub fn from_tool(tool: &CustomTool) -> (r: PermissionVec)
        ensures
            r.wf(),
            r@ == tool_model(*tool),
    {
        let network = match tool.requires_network {
            Some(b) => b,
            None => code_needs_network(tool.code.as_str()),
        };
        PermissionVec {
            network,
            secrets: StrSet::from_strings(copy_strings(&tool.required_secrets)),
            commands: StrSet::from_strings(copy_strings(&tool.required_commands)),
            mcp_tools: StrSet::from_strings(copy_strings(&tool.required_tools)),
        }
    }

    /// The permissions granted by an approval.
    pub fn from_approval(approval: &ToolApproval) -> (r: PermissionVec)
        ensures
            r.wf(),
            r@ == approval_model(*approval),
    {
        let network = match approval.allow_network {
            Some(b) => b,
            None => false,
        };
        PermissionVec {
            network,
            secrets: StrSet::from_strings(copy_strings(&approval.allowed_secrets)),
            commands: StrSet::from_strings(copy_strings(&approval.allowed_commands)),
            mcp_tools: StrSet::from_strings(copy_strings(&approval.allowed_tools)),
        }
    }

    /// The dimensions where self does not dominate other, described for
    /// a human: `network`, then `secrets: {..}`, `commands: {..}`,
    /// `mcp_tools: {..}` listing the missing names in sorted order.
    pub fn missing_dimensions(&self, other: &PermissionVec) -> (r: Vec<String>)
        requires
            other.wf(),
        ensures
            string_views(r@) == missing_spec(self@, other@),
    {
        let mut missing: Vec<String> = Vec::new();
        if !self.network && other.network {
            missing.push(String::from_str("network"));
        }
        assert(string_views(missing@) =~= (if !self.network && other.network {
            seq!["network"@]
        } else {
            Seq::empty()
        }));
        let s = other.secrets.difference(&self.secrets);
        report_dimension("secrets", &s, &mut missing);
        let c = other.commands.difference(&self.commands);
        report_dimension("commands", &c, &mut missing);
        let t = other.mcp_tools.difference(&self.mcp_tools);
        report_dimension("mcp_tools", &t, &mut missing);
        missing
    }

    /// The lattice order: `None` for incomparable vectors.
    pub fn partial_cmp(&self, other: &PermissionVec) -> (r: Option<Ordering>)
        ensures
            r == model_partial_cmp(self@, other@),
    {
        let ab = self.dominates(other);
        let ba = other.dominates(self);
        if ab && ba {
            Some(Ordering::Equal)
        } else if ab {
            Some(Ordering::Greater)
        } else if ba {
            Some(Ordering::Less)
        } else {
            None
        }
    }
}

/// A copy of a vector of strings.
fn copy_strings(v: &Vec<String>) -> (r: Vec<String>)
    ensures
        r@ == v@,
{
    let mut out: Vec<String> = Vec::new();
    let mut i: usize = 0;
    while i < v.len()
        invariant
            i <= v.len(),
            out@ == v@.take(i as int),
        decreases v.len() - i,
    {
        let ghost before = out@;
        out.push(v[i].clone());
        assert(out@ == before.push(v@[i as int]));
        assert(out@ =~= v@.take(i + 1));
        i = i + 1;
    }
    assert(v@.take(i as int) =~= v@);
    out
}

// ---------------------------------------------------------------------------
// Violations and the call graph
// ---------------------------------------------------------------------------

/// Privilege violation errors.
#[derive(Debug)]
pub enum PrivilegeViolation {
    /// The tool is not in the permission map.
    UnknownTool(String),
    /// Caller lacks sufficient privilege to call callee.
    InsufficientPrivilege { caller: String, callee: String, missing: Vec<String> },
    /// The call graph contains a cycle.
    CycleDetected(Vec<String>),
}

/// The human-readable text of a violation.
pub open spec fn violation_text(v: PrivilegeViolation) -> Seq<char> {
    match v {
        PrivilegeViolation::UnknownTool(name) => "unknown tool: "@ + name@,
        PrivilegeViolation::InsufficientPrivilege { caller, callee, missing } => "insufficient privilege: "@
            + caller@ + " cannot call "@ + callee@ + " (missing: "@ + join_with(
            string_views(missing@),
            ", "@,
        ) + ")"@,
        PrivilegeViolation::CycleDetected(path) => "cycle detected: "@ + join_with(
            string_views(path@),
            " -> "@,
        ),
    }
}

impl PrivilegeViolation {
    /// The human-readable text of the violation.
    pub fn message(&self) -> (r: String)
        ensures
            r@ == violation_text(*self),
    {
        match self {
            PrivilegeViolation::UnknownTool(name) => {
                let mut out = String::from_str("unknown tool: ");
                out.append(name.as_str());
                out
            },
            PrivilegeViolation::InsufficientPrivilege { caller, callee, missing } => {
                let mut out = String::from_str("insufficient privilege: ");
                out.append(caller.as_str());
                out.append(" cannot call ");
                out.append(callee.as_str());
                out.append(" (missing: ");
                let listed = join_strings(missing, ", ");
                out.append(listed.as_str());
                out.append(")");
                out
            },
            PrivilegeViolation::CycleDetected(path) => {
                let mut out = String::from_str("cycle detected: ");
                let listed = join_strings(path, " -> ");
                out.append(listed.as_str());
                out
            },
        }
    }
}

/// Whether `caller` may call `callee`: a custom tool (one with
/// permissions) must be dominated; a built-in MCP tool must be granted to
/// the caller or be one of the safe tools.
pub open spec fn call_allowed(
    pm: Map<Seq<char>, PermissionModel>,
    caller: Seq<char>,
    callee: Seq<char>,
) -> bool {
    if pm.contains_key(callee) {
        model_dominates(pm[caller], pm[callee])
    } else {
        pm[caller].mcp_tools.contains(callee) || is_safe_tool_name(callee)
    }
}

/// Why a call is refused.
pub open spec fn denial_reasons(
    pm: Map<Seq<char>, PermissionModel>,
    caller: Seq<char>,
    callee: Seq<char>,
) -> Seq<Seq<char>> {
    if pm.contains_key(callee) {
        missing_spec(pm[caller], pm[callee])
    } else {
        seq!["mcp_tools: {"@ + callee + "}"@]
    }
}

/// The outcome of validating one call edge.
pub open spec fn call_verdict(
    pm: Map<Seq<char>, PermissionModel>,
    caller: Seq<char>,
    callee: Seq<char>,
    r: Result<(), PrivilegeViolation>,
) -> bool {
    if !pm.contains_key(caller) {
        r matches Err(PrivilegeViolation::UnknownTool(n)) && n@ == caller
    } else if call_allowed(pm, caller, callee) {
        r is Ok
    } else {
        r matches Err(PrivilegeViolation::InsufficientPrivilege { caller: c, callee: d, missing: m })
            && c@ == caller && d@ == callee && string_views(m@) == denial_reasons(pm, caller, callee)
    }
}

/// A tool that takes part in the graph: one with call edges or permissions.
/// Edges to other names (built-in MCP tools) are not followed.
pub open spec fn relevant(
    em: Map<Seq<char>, Set<Seq<char>>>,
    pm: Map<Seq<char>, PermissionModel>,
    v: Seq<char>,
) -> bool {
    em.contains_key(v) || pm.contains_key(v)
}

/// An edge of the call graph between tools that take part in it.
pub open spec fn call_edge(
    em: Map<Seq<char>, Set<Seq<char>>>,
    pm: Map<Seq<char>, PermissionModel>,
    u: Seq<char>,
    v: Seq<char>,
) -> bool {
    em.contains_key(u) && em[u].contains(v) && relevant(em, pm, v)
}

/// A closed walk along call edges: at least one step, ending where it began.
pub open spec fn is_cycle(
    em: Map<Seq<char>, Set<Seq<char>>>,
    pm: Map<Seq<char>, PermissionModel>,
    p: Seq<Seq<char>>,
) -> bool {
    &&& p.len() >= 2
    &&& p[0] == p[p.len() - 1]
    &&& forall|k: int| 0 <= k < p.len() - 1 ==> #[trigger] call_edge(em, pm, p[k], p[k + 1])
}

/// The call graph contains a cycle.
pub open spec fn has_cycle(
    em: Map<Seq<char>, Set<Seq<char>>>,
    pm: Map<Seq<char>, PermissionModel>,
) -> bool {
    exists|p: Seq<Seq<char>>| is_cycle(em, pm, p)
}

/// `v` occurs among the first `i` elements of `fv`.
pub open spec fn occurs_before(fv: Seq<Seq<char>>, v: Seq<char>, i: int) -> bool {
    exists|j: int| 0 <= j < i && fv[j] == v
}

/// Every edge out of a finished tool leads to a tool finished before it.
pub open spec fn finish_order_ok(
    em: Map<Seq<char>, Set<Seq<char>>>,
    pm: Map<Seq<char>, PermissionModel>,
    fv: Seq<Seq<char>>,
) -> bool {
    forall|i: int, v: Seq<char>|
        0 <= i < fv.len() && #[trigger] call_edge(em, pm, fv[i], v) ==> occurs_before(fv, v, i)
}

/// Consecutive tools on the search path are joined by call edges.
pub open spec fn path_ok(
    em: Map<Seq<char>, Set<Seq<char>>>,
    pm: Map<Seq<char>, PermissionModel>,
    pv: Seq<Seq<char>>,
) -> bool {
    forall|k: int| 0 <= k < pv.len() - 1 ==> #[trigger] call_edge(em, pm, pv[k], pv[k + 1])
}

/// Following a walk from a finished tool only reaches tools finished earlier.
proof fn lemma_walk_goes_back(
    em: Map<Seq<char>, Set<Seq<char>>>,
    pm: Map<Seq<char>, PermissionModel>,
    fv: Seq<Seq<char>>,
    p: Seq<Seq<char>>,
    i0: int,
    k: int,
)
    requires
        finish_order_ok(em, pm, fv),
        0 <= i0 < fv.len(),
        fv[i0] == p[0],
        1 <= k < p.len(),
        forall|q: int| 0 <= q < p.len() - 1 ==> #[trigger] call_edge(em, pm, p[q], p[q + 1]),
    ensures
        occurs_before(fv, p[k], i0),
    decreases k,
{
    assert(call_edge(em, pm, p[k - 1], p[(k - 1) + 1]));
    if k == 1 {
        assert(call_edge(em, pm, fv[i0], p[1]));
    } else {
        lemma_walk_goes_back(em, pm, fv, p, i0, k - 1);
        let j = choose|j: int| 0 <= j < i0 && fv[j] == p[k - 1];
        assert(call_edge(em, pm, fv[j], p[k]));
        assert(occurs_before(fv, p[k], j));
        let j2 = choose|j2: int| 0 <= j2 < j && fv[j2] == p[k];
        assert(0 <= j2 < i0 && fv[j2] == p[k]);
    }
}

/// If every tool with edges is finished in a good order, there is no cycle.
proof fn lemma_no_cycle(
    em: Map<Seq<char>, Set<Seq<char>>>,
    pm: Map<Seq<char>, PermissionModel>,
    fv: Seq<Seq<char>>,
)
    requires
        finish_order_ok(em, pm, fv),
        fv.no_duplicates(),
        forall|x: Seq<char>| em.contains_key(x) ==> fv.contains(x),
    ensures
        !has_cycle(em, pm),
{
    if has_cycle(em, pm) {
        let p = choose|p: Seq<Seq<char>>| is_cycle(em, pm, p);
        assert(call_edge(em, pm, p[0], p[0int + 1]));
        assert(fv.contains(p[0]));
        let i0 = choose|i0: int| 0 <= i0 < fv.len() && fv[i0] == p[0];
        lemma_walk_goes_back(em, pm, fv, p, i0, p.len() - 1);
        let j = choose|j: int| 0 <= j < i0 && fv[j] == p[p.len() - 1];
        assert(fv[j] == fv[i0]);
    }
}

/// An edge along which permissions accumulate: to a tool with permissions.
pub open spec fn perm_edge(
    em: Map<Seq<char>, Set<Seq<char>>>,
    pm: Map<Seq<char>, PermissionModel>,
    u: Seq<char>,
    v: Seq<char>,
) -> bool {
    em.contains_key(u) && em[u].contains(v) && pm.contains_key(v)
}

/// `v` is reached from `u` in exactly `n` steps along permission edges.
pub open spec fn reach_in(
    em: Map<Seq<char>, Set<Seq<char>>>,
    pm: Map<Seq<char>, PermissionModel>,
    u: Seq<char>,
    v: Seq<char>,
    n: nat,
) -> bool
    decreases n,
{
    if n == 0 {
        u == v
    } else {
        exists|w: Seq<char>| reach_in(em, pm, u, w, (n - 1) as nat) && #[trigger] perm_edge(em, pm, w, v)
    }
}

/// `v` is reached from `u` in one or more steps.
pub open spec fn reachable(
    em: Map<Seq<char>, Set<Seq<char>>>,
    pm: Map<Seq<char>, PermissionModel>,
    u: Seq<char>,
    v: Seq<char>,
) -> bool {
    exists|n: nat| n >= 1 && #[trigger] reach_in(em, pm, u, v, n)
}

/// A tool and every tool transitively reachable from it.
pub open spec fn reach_set(
    em: Map<Seq<char>, Set<Seq<char>>>,
    pm: Map<Seq<char>, PermissionModel>,
    t: Seq<char>,
) -> Set<Seq<char>> {
    Set::new(|v: Seq<char>| v == t || reachable(em, pm, t, v))
}

/// The join of the permissions of every tool in `s`.
pub open spec fn join_all(pm: Map<Seq<char>, PermissionModel>, s: Set<Seq<char>>) -> PermissionModel {
    PermissionModel {
        network: exists|v: Seq<char>| s.contains(v) && pm[v].network,
        secrets: Set::new(|x: Seq<char>| exists|v: Seq<char>| s.contains(v) && pm[v].secrets.contains(x)),
        commands: Set::new(
            |x: Seq<char>| exists|v: Seq<char>| s.contains(v) && pm[v].commands.contains(x),
        ),
        mcp_tools: Set::new(
            |x: Seq<char>| exists|v: Seq<char>| s.contains(v) && pm[v].mcp_tools.contains(x),
        ),
    }
}

/// The join over one tool is its own permissions.
proof fn lemma_join_all_single(pm: Map<Seq<char>, PermissionModel>, t: Seq<char>)
    ensures
        join_all(pm, set![t]) == pm[t],
{
    let j = join_all(pm, set![t]);
    assert(set![t].contains(t));
    assert(j.secrets =~= pm[t].secrets);
    assert(j.commands =~= pm[t].commands);
    assert(j.mcp_tools =~= pm[t].mcp_tools);
    assert(j =~= pm[t]);
}

/// Adding a tool to the set joins its permissions.
proof fn lemma_join_all_insert(
    pm: Map<Seq<char>, PermissionModel>,
    s: Set<Seq<char>>,
    x: Seq<char>,
)
    ensures
        join_all(pm, s.insert(x)) == model_join(join_all(pm, s), pm[x]),
{
    let a = join_all(pm, s.insert(x));
    let b = model_join(join_all(pm, s), pm[x]);
    assert(s.insert(x).contains(x));
    assert forall|y: Seq<char>| a.secrets.contains(y) <==> b.secrets.contains(y) by {
        if a.secrets.contains(y) {
            let v = choose|v: Seq<char>| s.insert(x).contains(v) && pm[v].secrets.contains(y);
            if v != x {
                assert(s.contains(v));
            }
        }
        if b.secrets.contains(y) {
            if pm[x].secrets.contains(y) {
                assert(s.insert(x).contains(x) && pm[x].secrets.contains(y));
            } else {
                let v = choose|v: Seq<char>| s.contains(v) && pm[v].secrets.contains(y);
                assert(s.insert(x).contains(v) && pm[v].secrets.contains(y));
            }
        }
    }
    assert forall|y: Seq<char>| a.commands.contains(y) <==> b.commands.contains(y) by {
        if a.commands.contains(y) {
            let v = choose|v: Seq<char>| s.insert(x).contains(v) && pm[v].commands.contains(y);
            if v != x {
                assert(s.contains(v));
            }
        }
        if b.commands.contains(y) {
            if pm[x].commands.contains(y) {
                assert(s.insert(x).contains(x) && pm[x].commands.contains(y));
            } else {
                let v = choose|v: Seq<char>| s.contains(v) && pm[v].commands.contains(y);
                assert(s.insert(x).contains(v) && pm[v].commands.contains(y));
            }
        }
    }
    assert forall|y: Seq<char>| a.mcp_tools.contains(y) <==> b.mcp_tools.contains(y) by {
        if a.mcp_tools.contains(y) {
            let v = choose|v: Seq<char>| s.insert(x).contains(v) && pm[v].mcp_tools.contains(y);
            if v != x {
                assert(s.contains(v));
            }
        }
        if b.mcp_tools.contains(y) {
            if pm[x].mcp_tools.contains(y) {
                assert(s.insert(x).contains(x) && pm[x].mcp_tools.contains(y));
            } else {
                let v = choose|v: Seq<char>| s.contains(v) && pm[v].mcp_tools.contains(y);
                assert(s.insert(x).contains(v) && pm[v].mcp_tools.contains(y));
            }
        }
    }
    if a.network {
        let v = choose|v: Seq<char>| s.insert(x).contains(v) && pm[v].network;
        if v != x {
            assert(s.contains(v));
        }
    }
    if b.network {
        if pm[x].network {
            assert(s.insert(x).contains(x) && pm[x].network);
        } else {
            let v = choose|v: Seq<char>| s.contains(v) && pm[v].network;
            assert(s.insert(x).contains(v) && pm[v].network);
        }
    }
    assert(a.secrets =~= b.secrets);
    assert(a.commands =~= b.commands);
    assert(a.mcp_tools =~= b.mcp_tools);
    assert(a =~= b);
}

/// One more step from the start or from a reachable tool is reachable.
proof fn lemma_reach_step(
    em: Map<Seq<char>, Set<Seq<char>>>,
    pm: Map<Seq<char>, PermissionModel>,
    t: Seq<char>,
    u: Seq<char>,
    v: Seq<char>,
)
    requires
        u == t || reachable(em, pm, t, u),
        perm_edge(em, pm, u, v),
    ensures
        reachable(em, pm, t, v),
{
    if u == t {
        assert(reach_in(em, pm, t, u, 0));
        assert(reach_in(em, pm, t, v, 1));
    } else {
        let n = choose|n: nat| n >= 1 && #[trigger] reach_in(em, pm, t, u, n);
        assert(reach_in(em, pm, t, u, ((n + 1) - 1) as nat));
        assert(reach_in(em, pm, t, v, n + 1));
    }
}

/// A set of tools that holds the start and is closed under permission
/// edges holds everything reachable from the start.
proof fn lemma_reach_closed(
    em: Map<Seq<char>, Set<Seq<char>>>,
    pm: Map<Seq<char>, PermissionModel>,
    vs: Seq<Seq<char>>,
    t: Seq<char>,
    w: Seq<char>,
    m: nat,
)
    requires
        vs.contains(t),
        forall|k: int, v: Seq<char>|
            0 <= k < vs.len() && #[trigger] perm_edge(em, pm, vs[k], v) ==> vs.contains(v),
        reach_in(em, pm, t, w, m),
    ensures
        vs.contains(w),
    decreases m,
{
    if m > 0 {
        let u = choose|u: Seq<char>|
            reach_in(em, pm, t, u, (m - 1) as nat) && #[trigger] perm_edge(em, pm, u, w);
        lemma_reach_closed(em, pm, vs, t, u, (m - 1) as nat);
        let k = choose|k: int| 0 <= k < vs.len() && vs[k] == u;
        assert(perm_edge(em, pm, vs[k], w));
    }
}

/// A sequence without duplicates drawn from `u` is no longer than `u`.
proof fn lemma_distinct_within(s: Seq<Seq<char>>, u: Seq<Seq<char>>)
    requires
        s.no_duplicates(),
        forall|k: int| 0 <= k < s.len() ==> u.contains(#[trigger] s[k]),
    ensures
        s.len() <= u.len(),
{
    s.unique_seq_to_set();
    vstd::seq_lib::seq_to_set_is_finite(u);
    assert(s.to_set().subset_of(u.to_set()));
    vstd::set_lib::lemma_len_subset(s.to_set(), u.to_set());
    u.lemma_cardinality_of_set();
}

/// The caller is known and may call the callee.
pub open spec fn call_ok(
    pm: Map<Seq<char>, PermissionModel>,
    caller: Seq<char>,
    callee: Seq<char>,
) -> bool {
    pm.contains_key(caller) && call_allowed(pm, caller, callee)
}

/// Every call edge of the graph is allowed.
pub open spec fn all_calls_allowed(
    em: Map<Seq<char>, Set<Seq<char>>>,
    pm: Map<Seq<char>, PermissionModel>,
) -> bool {
    forall|a: Seq<char>, b: Seq<char>|
        em.contains_key(a) && #[trigger] em[a].contains(b) ==> call_ok(pm, a, b)
}

/// Validates the tool call graph for privilege safety and acyclicity.
pub struct CallGraphValidator {
    permissions: Vec<(String, PermissionVec)>,
    call_edges: Vec<(String, StrSet)>,
}

impl CallGraphValidator {
    /// The permissions of each known tool.
    pub closed spec fn perms(&self) -> Map<Seq<char>, PermissionModel> {
        entries_map(self.permissions@)
    }

    /// The tools each tool calls.
    pub closed spec fn edges(&self) -> Map<Seq<char>, Set<Seq<char>>> {
        entries_map(self.call_edges@)
    }

    /// Well-formedness: keys are distinct and every set is sorted.
    pub closed spec fn wf(&self) -> bool {
        &&& keys_distinct(self.permissions@)
        &&& keys_distinct(self.call_edges@)
        &&& forall|i: int| 0 <= i < self.permissions@.len() ==> (#[trigger] self.permissions@[i]).1.wf()
        &&& forall|i: int| 0 <= i < self.call_edges@.len() ==> (#[trigger] self.call_edges@[i]).1.wf()
    }

    /// Create a new validator with known tool permissions and call edges.
    pub fn new(
        permissions: Vec<(String, PermissionVec)>,
        call_edges: Vec<(String, StrSet)>,
    ) -> (r: CallGraphValidator)
        requires
            keys_distinct(permissions@),
            keys_distinct(call_edges@),
            forall|i: int| 0 <= i < permissions@.len() ==> (#[trigger] permissions@[i]).1.wf(),
            forall|i: int| 0 <= i < call_edges@.len() ==> (#[trigger] call_edges@[i]).1.wf(),
        ensures
            r.wf(),
            r.perms() == entries_map(permissions@),
            r.edges() == entries_map(call_edges@),
    {
        CallGraphValidator { permissions, call_edges }
    }

    /// The position of a tool among those with permissions.
    fn find_perm(&self, name: &str) -> (r: Option<usize>)
        requires
            self.wf(),
        ensures
            match r {
                Some(i) => i < self.permissions@.len() && self.permissions@[i as int].0@ == name@
                    && self.perms().contains_key(name@) && self.perms()[name@]
                    == self.permissions@[i as int].1@,
                None => !self.perms().contains_key(name@),
            },
    {
        let mut i: usize = 0;
        while i < self.permissions.len()
            invariant
                self.wf(),
                i <= self.permissions@.len(),
                forall|k: int| 0 <= k < i ==> self.permissions@[k].0@ != name@,
            decreases self.permissions@.len() - i,
        {
            if str_eq(self.permissions[i].0.as_str(), name) {
                proof {
                    lemma_entries_map_at(self.permissions@, i as int);
                }
                return Some(i);
            }
            i = i + 1;
        }
        None
    }

    /// The position of a tool among those with call edges.
    fn find_edges(&self, name: &str) -> (r: Option<usize>)
        requires
            self.wf(),
        ensures
            match r {
                Some(i) => i < self.call_edges@.len() && self.call_edges@[i as int].0@ == name@
                    && self.edges().contains_key(name@) && self.edges()[name@]
                    == self.call_edges@[i as int].1@,
                None => !self.edges().contains_key(name@),
            },
    {
        let mut i: usize = 0;
        while i < self.call_edges.len()
            invariant
                self.wf(),
                i <= self.call_edges@.len(),
                forall|k: int| 0 <= k < i ==> self.call_edges@[k].0@ != name@,
            decreases self.call_edges@.len() - i,
        {
            if str_eq(self.call_edges[i].0.as_str(), name) {
                proof {
                    lemma_entries_map_at(self.call_edges@, i as int);
                }
                return Some(i);
            }
            i = i + 1;
        }
        None
    }

    /// Every tool that takes part in the graph, with repeats.
    spec fn universe(&self) -> Seq<Seq<char>> {
        entry_keys(self.permissions@) + entry_keys(self.call_edges@)
    }

    /// The state of the depth-first search: finished tools and the current
    /// path are distinct tools of the graph, finished in a good order, and
    /// the path follows call edges.
    spec fn dfs_state(&self, fv: Seq<Seq<char>>, pv: Seq<Seq<char>>) -> bool {
        let em = self.edges();
        let pm = self.perms();
        &&& fv.no_duplicates()
        &&& pv.no_duplicates()
        &&& fv.disjoint(pv)
        &&& forall|k: int| 0 <= k < fv.len() ==> relevant(em, pm, #[trigger] fv[k])
        &&& forall|k: int| 0 <= k < pv.len() ==> relevant(em, pm, #[trigger] pv[k])
        &&& finish_order_ok(em, pm, fv)
        &&& path_ok(em, pm, pv)
    }

    /// The tools visited by the search are at most as many as the entries.
    proof fn lemma_visited_bound(&self, fv: Seq<Seq<char>>, pv: Seq<Seq<char>>)
        requires
            self.dfs_state(fv, pv),
        ensures
            fv.len() + pv.len() <= self.permissions@.len() + self.call_edges@.len(),
    {
        let em = self.edges();
        let pm = self.perms();
        let s = fv + pv;
        vstd::seq_lib::lemma_no_dup_in_concat(fv, pv);
        assert forall|k: int| 0 <= k < s.len() implies self.universe().contains(#[trigger] s[k]) by {
            let x = s[k];
            if k < fv.len() {
                assert(relevant(em, pm, fv[k]));
            } else {
                assert(relevant(em, pm, pv[k - fv.len()]));
            }
            if pm.contains_key(x) {
                let i = choose|i: int| 0 <= i < self.permissions@.len() && self.permissions@[i].0@ == x;
                assert(self.universe()[i] == x);
            } else {
                let i = choose|i: int| 0 <= i < self.call_edges@.len() && self.call_edges@[i].0@ == x;
                assert(self.universe()[self.permissions@.len() + i] == x);
            }
        }
        lemma_distinct_within(s, self.universe());
    }

    /// Depth-first search from `node`; reports the first cycle met.
    fn dfs_cycle_check(
        &self,
        node: &str,
        finished: &mut Vec<String>,
        path: &mut Vec<String>,
    ) -> (r: Result<(), PrivilegeViolation>)
        requires
            self.wf(),
            self.dfs_state(string_views(old(finished)@), string_views(old(path)@)),
            relevant(self.edges(), self.perms(), node@),
            !string_views(old(finished)@).contains(node@),
            !string_views(old(path)@).contains(node@),
            old(path)@.len() > 0 ==> call_edge(
                self.edges(),
                self.perms(),
                string_views(old(path)@).last(),
                node@,
            ),
        ensures
            match r {
                Ok(()) => {
                    &&& string_views(final(path)@) == string_views(old(path)@)
                    &&& self.dfs_state(string_views(final(finished)@), string_views(final(path)@))
                    &&& final(finished)@.len() >= old(finished)@.len()
                    &&& string_views(final(finished)@).take(old(finished)@.len() as int)
                        == string_views(old(finished)@)
                    &&& string_views(final(finished)@).contains(node@)
                },
                Err(e) => e matches PrivilegeViolation::CycleDetected(c) && is_cycle(
                    self.edges(),
                    self.perms(),
                    string_views(c@),
                ),
            },
        decreases self.permissions@.len() + self.call_edges@.len() - old(finished)@.len() - old(
            path,
        )@.len(),
    {
        let ghost em = self.edges();
        let ghost pm = self.perms();
        let ghost fv0 = string_views(finished@);
        let ghost pv0 = string_views(path@);
        let ghost measure0 = self.permissions@.len() + self.call_edges@.len() - finished@.len()
            - path@.len();
        path.push(String::from_str(node));
        let ghost pvc = string_views(path@);
        proof {
            assert(pvc =~= pv0.push(node@));
            assert forall|k: int| 0 <= k < pvc.len() - 1 implies #[trigger] call_edge(
                em,
                pm,
                pvc[k],
                pvc[k + 1],
            ) by {
                if k < pv0.len() - 1 {
                    assert(call_edge(em, pm, pv0[k], pv0[k + 1]));
                }
            }
            assert forall|i: int, j: int|
                0 <= i < pvc.len() && 0 <= j < pvc.len() && i != j implies pvc[i] != pvc[j] by {
                if i < pv0.len() && j < pv0.len() {
                } else if i < pv0.len() {
                    assert(pv0.contains(pvc[i]));
                } else {
                    assert(pv0.contains(pvc[j]));
                }
            }
            assert forall|i: int, j: int| 0 <= i < fv0.len() && 0 <= j < pvc.len() implies fv0[i]
                != pvc[j] by {
                if j < pv0.len() {
                } else {
                    assert(fv0.contains(fv0[i]));
                }
            }
            assert forall|k: int| 0 <= k < pvc.len() implies relevant(em, pm, #[trigger] pvc[k]) by {
                if k < pv0.len() {
                    assert(relevant(em, pm, pv0[k]));
                }
            }
            assert(self.dfs_state(fv0, pvc));
        }
        match self.find_edges(node) {
            None => {},
            Some(ei) => {
                let nbrs = &self.call_edges[ei].1;
                assert(nbrs.wf());
                let mut k: usize = 0;
                while k < nbrs.len()
                    invariant
                        self.wf(),
                        em == self.edges(),
                        pm == self.perms(),
                        em.contains_key(node@),
                        em[node@] == nbrs@,
                        string_views(path@) == pvc,
                        pvc == pv0.push(node@),
                        self.dfs_state(string_views(finished@), pvc),
                        finished@.len() >= fv0.len(),
                        string_views(finished@).take(fv0.len() as int) == fv0,
                        measure0 == self.permissions@.len() + self.call_edges@.len() - fv0.len()
                            - pv0.len(),
                        old(finished)@.len() == fv0.len(),
                        old(path)@.len() == pv0.len(),
                        k <= nbrs.elems().len(),
                        forall|q: int|
                            0 <= q < k && relevant(em, pm, #[trigger] nbrs.elems()[q])
                                ==> string_views(finished@).contains(nbrs.elems()[q]),
                    decreases nbrs.elems().len() - k,
                {
                    let nb = nbrs.get(k);
                    let ghost x = nbrs.elems()[k as int];
                    let is_rel = self.find_edges(nb.as_str()).is_some() || self.find_perm(
                        nb.as_str(),
                    ).is_some();
                    if is_rel {
                        assert(nbrs@.contains(x));
                        assert(call_edge(em, pm, node@, x));
                        match position_in(path, nb.as_str()) {
                            Some(pos) => {
                                let mut cycle: Vec<String> = Vec::new();
                                let mut q: usize = pos;
                                while q < path.len()
                                    invariant
                                        pos <= q <= path@.len(),
                                        cycle@.len() == q - pos,
                                        string_views(path@) == pvc,
                                        string_views(cycle@) == pvc.subrange(pos as int, q as int),
                                    decreases path@.len() - q,
                                {
                                    let ghost before = cycle@;
                                    cycle.push(path[q].clone());
                                    assert(cycle@ == before.push(path@[q as int]));
                                    assert(pvc[q as int] == path@[q as int]@);
                                    assert forall|m: int|
                                        0 <= m < q + 1 - pos implies #[trigger] string_views(
                                        cycle@,
                                    )[m] == pvc.subrange(pos as int, q + 1)[m] by {
                                        if m < q - pos {
                                            assert(cycle@[m] == before[m]);
                                            assert(string_views(before)[m] == pvc.subrange(
                                                pos as int,
                                                q as int,
                                            )[m]);
                                        }
                                    }
                                    assert(string_views(cycle@) =~= pvc.subrange(
                                        pos as int,
                                        q + 1,
                                    ));
                                    q = q + 1;
                                }
                                let ghost before = cycle@;
                                cycle.push(nb.clone());
                                proof {
                                    let c = string_views(cycle@);
                                    assert(cycle@ == before.push(*nb));
                                    assert(c =~= pvc.subrange(pos as int, pvc.len() as int).push(
                                        x,
                                    ));
                                    assert forall|m: int| 0 <= m < c.len() - 1 implies #[trigger] call_edge(
                                        em,
                                        pm,
                                        c[m],
                                        c[m + 1],
                                    ) by {
                                        if m < c.len() - 2 {
                                            assert(c[m] == pvc[pos + m]);
                                            assert(c[m + 1] == pvc[pos + m + 1]);
                                            assert(call_edge(em, pm, pvc[pos + m], pvc[pos + m + 1]));
                                        } else {
                                            assert(c[m] == pvc[pvc.len() - 1]);
                                        }
                                    }
                                    assert(is_cycle(em, pm, c));
                                }
                                return Err(PrivilegeViolation::CycleDetected(cycle));
                            },
                            None => {
                                if position_in(finished, nb.as_str()).is_none() {
                                    proof {
                                        self.lemma_visited_bound(string_views(finished@), pvc);
                                    }
                                    let ghost fbefore = string_views(finished@);
                                    match self.dfs_cycle_check(nb.as_str(), finished, path) {
                                        Ok(()) => {
                                            proof {
                                                let fa = string_views(finished@);
                                                assert(fa.take(fv0.len() as int) =~= fbefore.take(
                                                    fv0.len() as int,
                                                ));
                                                assert forall|q: int|
                                                    0 <= q < k && relevant(
                                                        em,
                                                        pm,
                                                        #[trigger] nbrs.elems()[q],
                                                    ) implies fa.contains(nbrs.elems()[q]) by {
                                                    let j = choose|j: int|
                                                        0 <= j < fbefore.len() && fbefore[j]
                                                            == nbrs.elems()[q];
                                                    assert(fa[j] == fbefore.take(
                                                        fbefore.len() as int,
                                                    )[j]);
                                                }
                                            }
                                        },
                                        Err(e) => {
                                            return Err(e);
                                        },
                                    }
                                }
                            },
                        }
                    }
                    k = k + 1;
                }
            },
        }
        let ghost fvc = string_views(finished@);
        let ghost pbefore = path@;
        path.pop();
        proof {
            assert(path@ == pbefore.drop_last());
            assert forall|k: int| 0 <= k < pv0.len() implies #[trigger] string_views(path@)[k]
                == pv0[k] by {
                assert(path@[k] == pbefore[k]);
                assert(string_views(pbefore)[k] == pvc[k]);
            }
            assert(string_views(path@) =~= pv0);
        }
        finished.push(String::from_str(node));
        proof {
            let fv1 = string_views(finished@);
            assert(fv1 =~= fvc.push(node@));
            assert(pvc[pv0.len() as int] == node@);
            assert(!fvc.contains(node@)) by {
                if fvc.contains(node@) {
                    let j = choose|j: int| 0 <= j < fvc.len() && fvc[j] == node@;
                    assert(fvc[j] != pvc[pv0.len() as int]);
                }
            }
            assert forall|i: int, j: int|
                0 <= i < fv1.len() && 0 <= j < fv1.len() && i != j implies fv1[i] != fv1[j] by {
                if i < fvc.len() && j < fvc.len() {
                } else if i < fvc.len() {
                    assert(fvc.contains(fv1[i]));
                } else {
                    assert(fvc.contains(fv1[j]));
                }
            }
            assert forall|i: int, j: int| 0 <= i < fv1.len() && 0 <= j < pv0.len() implies fv1[i]
                != pv0[j] by {
                if i < fvc.len() {
                    assert(pv0[j] == pvc[j]);
                } else {
                    assert(pvc[j] != pvc[pv0.len() as int]);
                }
            }
            assert forall|k: int| 0 <= k < fv1.len() implies relevant(em, pm, #[trigger] fv1[k]) by {
                if k < fvc.len() {
                    assert(relevant(em, pm, fvc[k]));
                }
            }
            assert forall|i: int, v: Seq<char>|
                0 <= i < fv1.len() && #[trigger] call_edge(em, pm, fv1[i], v) implies occurs_before(
                fv1,
                v,
                i,
            ) by {
                if i < fvc.len() {
                    assert(call_edge(em, pm, fvc[i], v));
                    let j = choose|j: int| 0 <= j < i && fvc[j] == v;
                    assert(fv1[j] == v);
                } else {
                    assert(em.contains_key(node@));
                    let ei = choose|ei: int|
                        0 <= ei < self.call_edges@.len() && self.call_edges@[ei].0@ == node@;
                    lemma_entries_map_at(self.call_edges@, ei);
                    let nbrs = self.call_edges@[ei].1;
                    assert(nbrs@.contains(v));
                    let q = choose|q: int| 0 <= q < nbrs.elems().len() && nbrs.elems()[q] == v;
                    assert(fvc.contains(v));
                    let j = choose|j: int| 0 <= j < fvc.len() && fvc[j] == v;
                    assert(fv1[j] == v);
                }
            }
            assert forall|k: int| 0 <= k < pv0.len() - 1 implies #[trigger] call_edge(
                em,
                pm,
                pv0[k],
                pv0[k + 1],
            ) by {
                assert(call_edge(em, pm, pvc[k], pvc[k + 1]));
            }
            assert(fv1.take(fv0.len() as int) =~= fvc.take(fv0.len() as int));
            assert(fv1[fvc.len() as int] == node@);
            assert(self.dfs_state(fv1, pv0));
        }
        Ok(())
    }

    /// Validate the entire graph is a DAG (depth-first cycle detection).
    pub fn validate_acyclic(&self) -> (r: Result<(), PrivilegeViolation>)
        requires
            self.wf(),
        ensures
            r is Ok <==> !has_cycle(self.edges(), self.perms()),
            r is Err ==> (r matches Err(PrivilegeViolation::CycleDetected(c)) && is_cycle(
                self.edges(),
                self.perms(),
                string_views(c@),
            )),
    {
        let ghost em = self.edges();
        let ghost pm = self.perms();
        let mut finished: Vec<String> = Vec::new();
        let mut path: Vec<String> = Vec::new();
        proof {
            assert(string_views(finished@) =~= Seq::<Seq<char>>::empty());
            assert(string_views(path@) =~= Seq::<Seq<char>>::empty());
            assert(self.dfs_state(string_views(finished@), string_views(path@)));
        }
        let mut i: usize = 0;
        while i < self.call_edges.len()
            invariant
                self.wf(),
                em == self.edges(),
                pm == self.perms(),
                i <= self.call_edges@.len(),
                path@.len() == 0,
                self.dfs_state(string_views(finished@), string_views(path@)),
                forall|q: int|
                    0 <= q < i ==> string_views(finished@).contains(
                        #[trigger] self.call_edges@[q].0@,
                    ),
            decreases self.call_edges@.len() - i,
        {
            let key = &self.call_edges[i].0;
            proof {
                lemma_entries_map_at(self.call_edges@, i as int);
            }
            if position_in(&finished, key.as_str()).is_none() {
                proof {
                    assert(string_views(path@) =~= Seq::<Seq<char>>::empty());
                    self.lemma_visited_bound(string_views(finished@), string_views(path@));
                }
                let ghost fbefore = string_views(finished@);
                match self.dfs_cycle_check(key.as_str(), &mut finished, &mut path) {
                    Ok(()) => {
                        proof {
                            let fa = string_views(finished@);
                            assert forall|q: int| 0 <= q < i implies fa.contains(
                                #[trigger] self.call_edges@[q].0@,
                            ) by {
                                let j = choose|j: int|
                                    0 <= j < fbefore.len() && fbefore[j] == self.call_edges@[q].0@;
                                assert(fa[j] == fa.take(fbefore.len() as int)[j]);
                            }
                        }
                    },
                    Err(e) => {
                        return Err(e);
                    },
                }
            }
            i = i + 1;
        }
        proof {
            let fv = string_views(finished@);
            assert forall|x: Seq<char>| em.contains_key(x) implies fv.contains(x) by {
                let q = choose|q: int| 0 <= q < self.call_edges@.len() && self.call_edges@[q].0@ == x;
                assert(fv.contains(self.call_edges@[q].0@));
            }
            lemma_no_cycle(em, pm, fv);
        }
        Ok(())
    }

    /// Compute effective permissions: the join of the permissions of the
    /// tool and of every tool transitively reachable from it.  This is the
    /// true capability surface shown to the operator at approval time.
    pub fn effective_permissions(&self, tool: &str) -> (r: Result<PermissionVec, PrivilegeViolation>)
        requires
            self.wf(),
        ensures
            !self.perms().contains_key(tool@) ==> (r matches Err(PrivilegeViolation::UnknownTool(n))
                && n@ == tool@),
            self.perms().contains_key(tool@) ==> (r matches Ok(p) && p.wf() && p@ == join_all(
                self.perms(),
                reach_set(self.edges(), self.perms(), tool@),
            )),
    {
        let ghost em = self.edges();
        let ghost pm = self.perms();
        let ghost t = tool@;
        let ti = match self.find_perm(tool) {
            Some(i) => i,
            None => {
                return Err(PrivilegeViolation::UnknownTool(String::from_str(tool)));
            },
        };
        assert(self.permissions@[ti as int].1.wf());
        let mut acc = self.permissions[ti].1.duplicate();
        let ghost mut accs: Set<Seq<char>> = set![t];
        proof {
            lemma_join_all_single(pm, t);
        }
        let mut visited: Vec<String> = Vec::new();
        visited.push(String::from_str(tool));
        assert(string_views(visited@) =~= seq![t]);
        let mut i: usize = 0;
        while i < visited.len()
            invariant
                self.wf(),
                em == self.edges(),
                pm == self.perms(),
                pm.contains_key(t),
                i <= visited@.len(),
                string_views(visited@).len() >= 1,
                string_views(visited@)[0] == t,
                string_views(visited@).no_duplicates(),
                forall|k: int|
                    0 <= k < visited@.len() ==> pm.contains_key(#[trigger] string_views(visited@)[k]),
                forall|k: int|
                    0 < k < visited@.len() ==> reachable(em, pm, t, #[trigger] string_views(visited@)[k]),
                acc.wf(),
                acc@ == join_all(pm, accs),
                accs.contains(t),
                forall|v: Seq<char>| accs.contains(v) ==> v == t || reachable(em, pm, t, v),
                forall|k: int, v: Seq<char>|
                    0 <= k < i && #[trigger] perm_edge(em, pm, string_views(visited@)[k], v)
                        ==> accs.contains(v) && string_views(visited@).contains(v),
            decreases self.permissions@.len() - i,
        {
            proof {
                let vv = string_views(visited@);
                assert forall|k: int| 0 <= k < vv.len() implies entry_keys(self.permissions@).contains(
                    #[trigger] vv[k],
                ) by {
                    assert(pm.contains_key(vv[k]));
                    let j = choose|j: int|
                        0 <= j < self.permissions@.len() && self.permissions@[j].0@ == vv[k];
                    assert(entry_keys(self.permissions@)[j] == vv[k]);
                }
                lemma_distinct_within(vv, entry_keys(self.permissions@));
            }
            let u = visited[i].clone();
            let ghost uv = u@;
            assert(uv == string_views(visited@)[i as int]);
            assert(uv == t || reachable(em, pm, t, uv));
            match self.find_edges(u.as_str()) {
                None => {
                    proof {
                        let vv = string_views(visited@);
                        assert forall|k: int, v: Seq<char>|
                            0 <= k < i + 1 && #[trigger] perm_edge(em, pm, vv[k], v) implies accs.contains(v)
                            && vv.contains(v) by {
                            if k == i {
                                assert(!em.contains_key(uv));
                            }
                        }
                    }
                },
                Some(ei) => {
                    let nbrs = &self.call_edges[ei].1;
                    let ghost vi = string_views(visited@);
                    let mut k: usize = 0;
                    while k < nbrs.len()
                        invariant
                            self.wf(),
                            em == self.edges(),
                            pm == self.perms(),
                            pm.contains_key(t),
                            em.contains_key(uv),
                            em[uv] == nbrs@,
                            i < vi.len(),
                            vi[i as int] == uv,
                            uv == t || reachable(em, pm, t, uv),
                            string_views(visited@).len() >= vi.len(),
                            forall|j: int| 0 <= j < vi.len() ==> #[trigger] string_views(visited@)[j] == vi[j],
                            string_views(visited@)[0] == t,
                            string_views(visited@).no_duplicates(),
                            forall|q: int|
                                0 <= q < visited@.len() ==> pm.contains_key(
                                    #[trigger] string_views(visited@)[q],
                                ),
                            forall|q: int|
                                0 < q < visited@.len() ==> reachable(
                                    em,
                                    pm,
                                    t,
                                    #[trigger] string_views(visited@)[q],
                                ),
                            acc.wf(),
                            acc@ == join_all(pm, accs),
                            accs.contains(t),
                            forall|v: Seq<char>| accs.contains(v) ==> v == t || reachable(em, pm, t, v),
                            forall|q: int, v: Seq<char>|
                                0 <= q < i && #[trigger] perm_edge(em, pm, string_views(visited@)[q], v)
                                    ==> accs.contains(v) && string_views(visited@).contains(v),
                            k <= nbrs.elems().len(),
                            forall|q: int|
                                0 <= q < k && pm.contains_key(#[trigger] nbrs.elems()[q]) ==> accs.contains(
                                    nbrs.elems()[q],
                                ) && string_views(visited@).contains(nbrs.elems()[q]),
                        decreases nbrs.elems().len() - k,
                    {
                        let nb = nbrs.get(k);
                        let ghost x = nbrs.elems()[k as int];
                        match self.find_perm(nb.as_str()) {
                            None => {},
                            Some(pj) => {
                                assert(nbrs@.contains(x));
                                assert(perm_edge(em, pm, uv, x));
                                assert(self.permissions@[pj as int].1.wf());
                                acc = acc.join(&self.permissions[pj].1);
                                proof {
                                    lemma_join_all_insert(pm, accs, x);
                                    lemma_reach_step(em, pm, t, uv, x);
                                    accs = accs.insert(x);
                                }
                                if position_in(&visited, nb.as_str()).is_none() {
                                    let ghost vb = string_views(visited@);
                                    let ghost rb = visited@;
                                    visited.push(nb.clone());
                                    proof {
                                        let va = string_views(visited@);
                                        assert(visited@ == rb.push(*nb));
                                        assert(va =~= vb.push(x));
                                        assert forall|a: int, b: int|
                                            0 <= a < va.len() && 0 <= b < va.len() && a != b implies va[a]
                                            != va[b] by {
                                            if a < vb.len() && b < vb.len() {
                                            } else if a < vb.len() {
                                                assert(vb.contains(va[a]));
                                            } else {
                                                assert(vb.contains(va[b]));
                                            }
                                        }
                                        assert forall|q: int, v: Seq<char>|
                                            0 <= q < i && #[trigger] perm_edge(em, pm, va[q], v) implies accs.contains(v)
                                            && va.contains(v) by {
                                            assert(perm_edge(em, pm, vb[q], v));
                                            let j = choose|j: int| 0 <= j < vb.len() && vb[j] == v;
                                            assert(va[j] == v);
                                        }
                                        assert forall|q: int|
                                            0 <= q < k + 1 && pm.contains_key(#[trigger] nbrs.elems()[q]) implies accs.contains(
                                            nbrs.elems()[q],
                                        ) && va.contains(nbrs.elems()[q]) by {
                                            if q < k {
                                                let j = choose|j: int| 0 <= j < vb.len() && vb[j] == nbrs.elems()[q];
                                                assert(va[j] == vb[j]);
                                            } else {
                                                assert(va[vb.len() as int] == x);
                                            }
                                        }
                                    }
                                }
                            },
                        }
                        k = k + 1;
                    }
                    proof {
                        let vv = string_views(visited@);
                        assert forall|q: int, v: Seq<char>|
                            0 <= q < i + 1 && #[trigger] perm_edge(em, pm, vv[q], v) implies accs.contains(v)
                            && vv.contains(v) by {
                            if q == i {
                                assert(vv[q] == uv);
                                assert(nbrs@.contains(v));
                                let m = choose|m: int| 0 <= m < nbrs.elems().len() && nbrs.elems()[m] == v;
                                assert(pm.contains_key(nbrs.elems()[m]));
                            }
                        }
                    }
                },
            }
            i = i + 1;
        }
        proof {
            let vv = string_views(visited@);
            let rs = reach_set(em, pm, t);
            assert forall|v: Seq<char>| rs.contains(v) <==> accs.contains(v) by {
                if rs.contains(v) && v != t {
                    let n = choose|n: nat| n >= 1 && #[trigger] reach_in(em, pm, t, v, n);
                    let w = choose|w: Seq<char>|
                        reach_in(em, pm, t, w, (n - 1) as nat) && #[trigger] perm_edge(em, pm, w, v);
                    assert(vv.contains(t)) by {
                        assert(vv[0] == t);
                    }
                    lemma_reach_closed(em, pm, vv, t, w, (n - 1) as nat);
                    let k = choose|k: int| 0 <= k < vv.len() && vv[k] == w;
                    assert(perm_edge(em, pm, vv[k], v));
                }
            }
            assert(rs =~= accs);
        }
        Ok(acc)
    }

    /// Validate all edges in the graph: first that it is acyclic, then
    /// every call edge.
    pub fn validate_all(&self) -> (r: Result<(), PrivilegeViolation>)
        requires
            self.wf(),
        ensures
            has_cycle(self.edges(), self.perms()) ==> (r matches Err(
                PrivilegeViolation::CycleDetected(c),
            ) && is_cycle(self.edges(), self.perms(), string_views(c@))),
            !has_cycle(self.edges(), self.perms()) && all_calls_allowed(self.edges(), self.perms())
                ==> r is Ok,
            !has_cycle(self.edges(), self.perms()) && !all_calls_allowed(self.edges(), self.perms())
                ==> exists|a: Seq<char>, b: Seq<char>|
                #![trigger self.edges()[a].contains(b)]
                self.edges().contains_key(a) && self.edges()[a].contains(b) && !call_ok(
                    self.perms(),
                    a,
                    b,
                ) && call_verdict(self.perms(), a, b, r),
    {
        let ghost em = self.edges();
        let ghost pm = self.perms();
        match self.validate_acyclic() {
            Ok(()) => {},
            Err(e) => {
                return Err(e);
            },
        }
        let mut i: usize = 0;
        while i < self.call_edges.len()
            invariant
                self.wf(),
                em == self.edges(),
                pm == self.perms(),
                !has_cycle(em, pm),
                i <= self.call_edges@.len(),
                forall|q: int, b: Seq<char>|
                    0 <= q < i && #[trigger] self.call_edges@[q].1@.contains(b) ==> call_ok(
                        pm,
                        self.call_edges@[q].0@,
                        b,
                    ),
            decreases self.call_edges@.len() - i,
        {
            let caller = &self.call_edges[i].0;
            let callees = &self.call_edges[i].1;
            proof {
                lemma_entries_map_at(self.call_edges@, i as int);
            }
            let mut k: usize = 0;
            while k < callees.len()
                invariant
                    self.wf(),
                    em == self.edges(),
                    pm == self.perms(),
                    !has_cycle(em, pm),
                    i < self.call_edges@.len(),
                    *caller == self.call_edges@[i as int].0,
                    *callees == self.call_edges@[i as int].1,
                    em.contains_key(caller@),
                    em[caller@] == callees@,
                    k <= callees.elems().len(),
                    forall|m: int| 0 <= m < k ==> call_ok(pm, caller@, #[trigger] callees.elems()[m]),
                decreases callees.elems().len() - k,
            {
                let callee = callees.get(k);
                let ghost b = callees.elems()[k as int];
                match self.validate_call(caller.as_str(), callee.as_str()) {
                    Ok(()) => {},
                    Err(e) => {
                        proof {
                            assert(callees@.contains(b));
                            assert(em[caller@].contains(b));
                        }
                        return Err(e);
                    },
                }
                k = k + 1;
            }
            proof {
                assert forall|q: int, b: Seq<char>|
                    0 <= q < i + 1 && #[trigger] self.call_edges@[q].1@.contains(b) implies call_ok(
                    pm,
                    self.call_edges@[q].0@,
                    b,
                ) by {
                    if q == i {
                        let m = choose|m: int| 0 <= m < callees.elems().len() && callees.elems()[m] == b;
                        assert(call_ok(pm, caller@, callees.elems()[m]));
                    }
                }
            }
            i = i + 1;
        }
        proof {
            assert forall|a: Seq<char>, b: Seq<char>|
                em.contains_key(a) && #[trigger] em[a].contains(b) implies call_ok(pm, a, b) by {
                let q = choose|q: int| 0 <= q < self.call_edges@.len() && self.call_edges@[q].0@ == a;
                lemma_entries_map_at(self.call_edges@, q);
                assert(self.call_edges@[q].1@.contains(b));
            }
        }
        Ok(())
    }

    /// Validate a single call edge: can caller invoke callee?
    pub fn validate_call(&self, caller: &str, callee: &str) -> (r: Result<(), PrivilegeViolation>)
        requires
            self.wf(),
        ensures
            call_verdict(self.perms(), caller@, callee@, r),
    {
        let ci = match self.find_perm(caller) {
            Some(i) => i,
            None => {
                return Err(PrivilegeViolation::UnknownTool(String::from_str(caller)));
            },
        };
        let caller_perms = &self.permissions[ci].1;
        match self.find_perm(callee) {
            None => {
                if caller_perms.mcp_tools.contains(callee) {
                    return Ok(());
                }
                if is_safe_mcp_tool(callee) {
                    return Ok(());
                }
                let mut entry = String::from_str("mcp_tools: {");
                entry.append(callee);
                entry.append("}");
                let missing = vec![entry];
                assert(string_views(missing@) =~= denial_reasons(self.perms(), caller@, callee@));
                Err(
                    PrivilegeViolation::InsufficientPrivilege {
                        caller: String::from_str(caller),
                        callee: String::from_str(callee),
                        missing,
                    },
                )
            },
            Some(di) => {
                let callee_perms = &self.permissions[di].1;
                assert(self.permissions@[di as int].1.wf());
                if !caller_perms.dominates(callee_perms) {
                    let missing = caller_perms.missing_dimensions(callee_perms);
                    return Err(
                        PrivilegeViolation::InsufficientPrivilege {
                            caller: String::from_str(caller),
                            callee: String::from_str(callee),
                            missing,
                        },
                    );
                }
                Ok(())
            },
        }
    }
}

// ---------------------------------------------------------------------------
// Tool execution sessions
// ---------------------------------------------------------------------------

/// Maximum call depth for tool chaining at runtime.
pub const MAX_CALL_DEPTH: u32 = 10;

/// The content of a tool execution session.
#[verifier::ext_equal]
pub struct SessionModel {
    pub allowed_tools: Set<Seq<char>>,
    pub caller_permissions: PermissionModel,
    pub depth: u32,
}

/// An active tool execution session for tool chaining: created when a
/// custom tool with allowed tools starts executing, so that it can call
/// other tools.
#[derive(Debug, Clone)]
pub struct ToolExecutionSession {
    /// Which tools this session is allowed to call.
    pub allowed_tools: StrSet,
    /// Permission vector of the calling tool.
    pub caller_permissions: PermissionVec,
    /// Current call depth (incremented per chained call).
    pub depth: u32,
}

impl View for ToolExecutionSession {
    type V = SessionModel;

    open spec fn view(&self) -> SessionModel {
        SessionModel {
            allowed_tools: self.allowed_tools@,
            caller_permissions: self.caller_permissions@,
            depth: self.depth,
        }
    }
}

impl ToolExecutionSession {
    /// A copy of the session.
    pub fn duplicate(&self) -> (r: ToolExecutionSession)
        ensures
            r@ == self@,
    {
        ToolExecutionSession {
            allowed_tools: self.allowed_tools.duplicate(),
            caller_permissions: self.caller_permissions.duplicate(),
            depth: self.depth,
        }
    }
}

/// A fresh session token: a random version-4 UUID in its hyphenated form.
///
/// Wraps `uuid::Uuid::new_v4` and its `to_string`; the contract claims only
/// the length of the hyphenated text, which the crate's formatting fixes.
#[verifier::external_body]
fn new_session_token() -> (r: String)
    ensures
        r@.len() == 36,
{
    uuid::Uuid::new_v4().to_string()
}

/// The sessions of running tool chains, by token.
pub struct ToolSessionStore {
    sessions: Vec<(String, ToolExecutionSession)>,
}

impl View for ToolSessionStore {
    type V = Map<Seq<char>, SessionModel>;

    closed spec fn view(&self) -> Map<Seq<char>, SessionModel> {
        entries_map(self.sessions@)
    }
}

impl ToolSessionStore {
    /// Well-formedness: one entry per token.
    pub closed spec fn wf(&self) -> bool {
        keys_distinct(self.sessions@)
    }

    /// Create a new empty session store.
    pub fn new() -> (r: ToolSessionStore)
        ensures
            r.wf(),
            r@ == Map::<Seq<char>, SessionModel>::empty(),
    {
        let r = ToolSessionStore { sessions: Vec::new() };
        assert(r@ =~= Map::<Seq<char>, SessionModel>::empty());
        r
    }

    /// The position of the session with `token`, if any.
    fn find(&self, token: &str) -> (r: Option<usize>)
        requires
            self.wf(),
        ensures
            match r {
                Some(i) => i < self.sessions@.len() && self.sessions@[i as int].0@ == token@,
                None => !self@.contains_key(token@),
            },
    {
        let mut i: usize = 0;
        while i < self.sessions.len()
            invariant
                i <= self.sessions@.len(),
                forall|k: int| 0 <= k < i ==> self.sessions@[k].0@ != token@,
            decreases self.sessions@.len() - i,
        {
            if str_eq(self.sessions[i].0.as_str(), token) {
                return Some(i);
            }
            i = i + 1;
        }
        None
    }

    /// Store `session` under `token`, replacing any session it had.
    pub fn insert(&mut self, token: String, session: ToolExecutionSession)
        requires
            old(self).wf(),
        ensures
            final(self).wf(),
            final(self)@ == old(self)@.insert(token@, session@),
    {
        let ghost e = (token, session);
        match self.find(token.as_str()) {
            Some(i) => {
                proof {
                    lemma_entries_map_update(self.sessions@, i as int, e);
                }
                self.sessions.set(i, (token, session));
            },
            None => {
                proof {
                    lemma_entries_map_push(self.sessions@, e);
                }
                self.sessions.push((token, session));
            },
        }
    }

    /// Register a tool execution session and return its fresh token.
    pub fn register(
        &mut self,
        allowed_tools: StrSet,
        caller_permissions: PermissionVec,
        depth: u32,
    ) -> (token: String)
        requires
            old(self).wf(),
        ensures
            final(self).wf(),
            token@.len() == 36,
            final(self)@ == old(self)@.insert(
                token@,
                SessionModel {
                    allowed_tools: allowed_tools@,
                    caller_permissions: caller_permissions@,
                    depth,
                },
            ),
    {
        let token = new_session_token();
        let session = ToolExecutionSession { allowed_tools, caller_permissions, depth };
        let key = token.clone();
        self.insert(key, session);
        token
    }

    /// Remove a tool execution session.
    pub fn remove(&mut self, token: &str)
        requires
            old(self).wf(),
        ensures
            final(self).wf(),
            final(self)@ == old(self)@.remove(token@),
    {
        match self.find(token) {
            Some(i) => {
                proof {
                    lemma_entries_map_remove(self.sessions@, i as int);
                }
                self.sessions.remove(i);
            },
            None => {
                assert(self@.remove(token@) =~= self@);
            },
        }
    }

    /// Get a copy of the tool execution session with `token`.
    pub fn get(&self, token: &str) -> (r: Option<ToolExecutionSession>)
        requires
            self.wf(),
        ensures
            match r {
                Some(s) => self@.contains_key(token@) && s@ == self@[token@],
                None => !self@.contains_key(token@),
            },
    {
        match self.find(token) {
            Some(i) => {
                proof {
                    lemma_entries_map_at(self.sessions@, i as int);
                }
                Some(self.sessions[i].1.duplicate())
            },
            None => None,
        }
    }
}

/// A registered session is found under its token, with what was registered.
pub proof fn law_session_get_after_insert(
    m: Map<Seq<char>, SessionModel>,
    token: Seq<char>,
    s: SessionModel,
)
    ensures
        m.insert(token, s).contains_key(token),
        m.insert(token, s)[token] == s,
{
}

/// A removed session is gone; other sessions are untouched.
pub proof fn law_session_remove(m: Map<Seq<char>, SessionModel>, token: Seq<char>, other: Seq<char>)
    requires
        other != token,
    ensures
        !m.remove(token).contains_key(token),
        m.remove(token).contains_key(other) == m.contains_key(other),
        m.contains_key(other) ==> m.remove(token)[other] == m[other],
{
}

// ---------------------------------------------------------------------------
// Laws of the lattice
// ---------------------------------------------------------------------------

/// Every permission vector dominates itself.
pub proof fn law_dominates_reflexive(a: PermissionModel)
    ensures
        model_dominates(a, a),
{
}

/// Dominance is transitive: if A can call B and B can call C, A can call C.
pub proof fn law_dominates_transitive(a: PermissionModel, b: PermissionModel, c: PermissionModel)
    requires
        model_dominates(a, b),
        model_dominates(b, c),
    ensures
        model_dominates(a, c),
{
}

/// Two vectors that dominate each other are equal.
pub proof fn law_dominates_antisymmetric(a: PermissionModel, b: PermissionModel)
    requires
        model_dominates(a, b),
        model_dominates(b, a),
    ensures
        a == b,
{
    assert(a.secrets =~= b.secrets);
    assert(a.commands =~= b.commands);
    assert(a.mcp_tools =~= b.mcp_tools);
}

/// The bottom element is dominated by every vector.
pub proof fn law_bottom_least(a: PermissionModel)
    ensures
        model_dominates(a, model_bottom()),
{
}

/// The bottom element is within the auto-approval threshold.
pub proof fn law_bottom_safe()
    ensures
        model_is_safe(model_bottom()),
{
}

/// Whatever a safe vector dominates is safe too.
pub proof fn law_safe_downward_closed(a: PermissionModel, b: PermissionModel)
    requires
        model_is_safe(a),
        model_dominates(a, b),
    ensures
        model_is_safe(b),
{
    assert(b.secrets =~= Set::<Seq<char>>::empty());
    assert(b.commands =~= Set::<Seq<char>>::empty());
    assert forall|t: Seq<char>| #[trigger] b.mcp_tools.contains(t) implies !is_at_uri_spec(t)
        && is_safe_tool_name(t) by {
        assert(a.mcp_tools.contains(t));
    }
}

/// The join dominates both of its arguments.
pub proof fn law_join_upper_bound(a: PermissionModel, b: PermissionModel)
    ensures
        model_dominates(model_join(a, b), a),
        model_dominates(model_join(a, b), b),
{
}

/// The join is the least vector dominating both arguments.
pub proof fn law_join_least(a: PermissionModel, b: PermissionModel, c: PermissionModel)
    requires
        model_dominates(c, a),
        model_dominates(c, b),
    ensures
        model_dominates(c, model_join(a, b)),
{
}

/// The join is commutative.
pub proof fn law_join_commutative(a: PermissionModel, b: PermissionModel)
    ensures
        model_join(a, b) == model_join(b, a),
{
    assert(model_join(a, b) =~= model_join(b, a));
}

/// The join is associative.
pub proof fn law_join_associative(a: PermissionModel, b: PermissionModel, c: PermissionModel)
    ensures
        model_join(model_join(a, b), c) == model_join(a, model_join(b, c)),
{
    assert(model_join(model_join(a, b), c) =~= model_join(a, model_join(b, c)));
}

/// The join is idempotent.
pub proof fn law_join_idempotent(a: PermissionModel)
    ensures
        model_join(a, a) == a,
{
    assert(model_join(a, a) =~= a);
}

/// Joining with a dominated vector changes nothing, and only then.
pub proof fn law_join_absorbs_dominated(a: PermissionModel, b: PermissionModel)
    ensures
        model_dominates(a, b) <==> model_join(a, b) == a,
{
    if model_dominates(a, b) {
        assert(model_join(a, b) =~= a);
    }
    if model_join(a, b) == a {
        assert(b.secrets.subset_of(model_join(a, b).secrets));
    }
}

/// The order reverses when the arguments are swapped; equality and
/// incomparability are symmetric.
pub proof fn law_partial_cmp_dual(a: PermissionModel, b: PermissionModel)
    ensures
        model_partial_cmp(a, b) == Some(Ordering::Greater) <==> model_partial_cmp(b, a) == Some(
            Ordering::Less,
        ),
        model_partial_cmp(a, b) == Some(Ordering::Equal) <==> model_partial_cmp(b, a) == Some(
            Ordering::Equal,
        ),
        model_partial_cmp(a, b) is None <==> model_partial_cmp(b, a) is None,
{
}

/// Equal in the order means equal vectors.
pub proof fn law_partial_cmp_equal(a: PermissionModel, b: PermissionModel)
    ensures
        model_partial_cmp(a, b) == Some(Ordering::Equal) <==> a == b,
{
    if model_partial_cmp(a, b) == Some(Ordering::Equal) {
        law_dominates_antisymmetric(a, b);
    }
}

// ---------------------------------------------------------------------------
// Laws of the call graph
// ---------------------------------------------------------------------------

/// Along allowed calls, the start dominates every tool it reaches.
proof fn lemma_reach_dominated(
    em: Map<Seq<char>, Set<Seq<char>>>,
    pm: Map<Seq<char>, PermissionModel>,
    t: Seq<char>,
    v: Seq<char>,
    n: nat,
)
    requires
        pm.contains_key(t),
        all_calls_allowed(em, pm),
        reach_in(em, pm, t, v, n),
    ensures
        pm.contains_key(v),
        model_dominates(pm[t], pm[v]),
    decreases n,
{
    if n > 0 {
        let u = choose|u: Seq<char>|
            reach_in(em, pm, t, u, (n - 1) as nat) && #[trigger] perm_edge(em, pm, u, v);
        lemma_reach_dominated(em, pm, t, u, (n - 1) as nat);
        assert(em[u].contains(v));
        assert(call_ok(pm, u, v));
    }
}

/// The effective permissions dominate the permissions of the tool and of
/// every tool it reaches.
pub proof fn law_effective_dominates_reached(
    em: Map<Seq<char>, Set<Seq<char>>>,
    pm: Map<Seq<char>, PermissionModel>,
    t: Seq<char>,
    v: Seq<char>,
)
    requires
        reach_set(em, pm, t).contains(v),
    ensures
        model_dominates(join_all(pm, reach_set(em, pm, t)), pm[v]),
{
    let s = reach_set(em, pm, t);
    let j = join_all(pm, s);
    assert(pm[v].network ==> j.network);
    assert forall|x: Seq<char>| pm[v].secrets.contains(x) implies j.secrets.contains(x) by {
        assert(s.contains(v) && pm[v].secrets.contains(x));
    }
    assert forall|x: Seq<char>| pm[v].commands.contains(x) implies j.commands.contains(x) by {
        assert(s.contains(v) && pm[v].commands.contains(x));
    }
    assert forall|x: Seq<char>| pm[v].mcp_tools.contains(x) implies j.mcp_tools.contains(x) by {
        assert(s.contains(v) && pm[v].mcp_tools.contains(x));
    }
}

/// No privilege escalation through chains: when every call edge of the
/// graph is allowed, a tool's effective permissions are its own.
pub proof fn law_no_escalation(
    em: Map<Seq<char>, Set<Seq<char>>>,
    pm: Map<Seq<char>, PermissionModel>,
    t: Seq<char>,
)
    requires
        pm.contains_key(t),
        all_calls_allowed(em, pm),
    ensures
        join_all(pm, reach_set(em, pm, t)) == pm[t],
{
    let s = reach_set(em, pm, t);
    let j = join_all(pm, s);
    assert(s.contains(t));
    assert forall|v: Seq<char>| s.contains(v) implies model_dominates(pm[t], pm[v]) by {
        if v != t {
            let n = choose|n: nat| n >= 1 && #[trigger] reach_in(em, pm, t, v, n);
            lemma_reach_dominated(em, pm, t, v, n);
        }
    }
    law_effective_dominates_reached(em, pm, t, t);
    assert(model_dominates(pm[t], j)) by {
        if j.network {
            let v = choose|v: Seq<char>| s.contains(v) && pm[v].network;
            assert(model_dominates(pm[t], pm[v]));
        }
        assert forall|x: Seq<char>| j.secrets.contains(x) implies pm[t].secrets.contains(x) by {
            let v = choose|v: Seq<char>| s.contains(v) && pm[v].secrets.contains(x);
            assert(model_dominates(pm[t], pm[v]));
        }
        assert forall|x: Seq<char>| j.commands.contains(x) implies pm[t].commands.contains(x) by {
            let v = choose|v: Seq<char>| s.contains(v) && pm[v].commands.contains(x);
            assert(model_dominates(pm[t], pm[v]));
        }
        assert forall|x: Seq<char>| j.mcp_tools.contains(x) implies pm[t].mcp_tools.contains(x) by {
            let v = choose|v: Seq<char>| s.contains(v) && pm[v].mcp_tools.contains(x);
            assert(model_dominates(pm[t], pm[v]));
        }
    }
    law_dominates_antisymmetric(j, pm[t]);
}

} // verus!
