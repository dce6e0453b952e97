//! Approval of custom tools.
//!
//! A tool runs when an approval for its current version stands.  A tool can
//! be approved automatically when it asks for no network, no secrets and no
//! commands, calls only safe built-in tools, and chains only to tools on
//! our own PDS that can themselves be approved automatically.  The walk
//! over chained tools keeps the record keys it has met: meeting one again
//! (a cycle, or a tool chained twice) refuses automatic approval.

use vstd::prelude::*;
use crate::text::str_eq;
use crate::strset::{sorted_list, string_views, position_in};
use crate::permissions::{
    CustomTool, ToolApproval, ToolApprovalStatus, PermissionVec, tool_model, is_at_uri,
    is_at_uri_spec, parse_at_uri, at_uri_parts, is_safe_mcp_tool, is_safe_tool_name,
};

verus! {

/// Check if a tool is approved for its current version.
pub fn is_approved(approval: &Option<ToolApproval>, tool_version: i32) -> (r: bool)
    ensures
        r == (approval matches Some(a) && a.status == ToolApprovalStatus::Approved && a.tool_version
            == tool_version),
{
    match approval {
        Some(a) => a.status == ToolApprovalStatus::Approved && a.tool_version == tool_version,
        None => false,
    }
}

// ---------------------------------------------------------------------------
// Local tools
// ---------------------------------------------------------------------------

/// The first tool of the table stored under record key `rkey`.
pub open spec fn table_tool(table: Seq<(String, CustomTool)>, rkey: Seq<char>) -> Option<CustomTool>
    decreases table.len(),
{
    if table.len() == 0 {
        None
    } else if table[0].0@ == rkey {
        Some(table[0].1)
    } else {
        table_tool(table.drop_first(), rkey)
    }
}

/// The record keys of the table.
pub open spec fn table_keys(table: Seq<(String, CustomTool)>) -> Seq<Seq<char>> {
    table.map_values(|e: (String, CustomTool)| e.0@)
}

/// A key under which the table holds a tool is one of its keys.
proof fn lemma_table_tool_key(table: Seq<(String, CustomTool)>, rkey: Seq<char>)
    requires
        table_tool(table, rkey) is Some,
    ensures
        table_keys(table).contains(rkey),
    decreases table.len(),
{
    if table[0].0@ == rkey {
        assert(table_keys(table)[0] == rkey);
    } else {
        lemma_table_tool_key(table.drop_first(), rkey);
        let k = choose|k: int| 0 <= k < table_keys(table.drop_first()).len() && table_keys(table.drop_first())[k] == rkey;
        assert(table_keys(table)[k + 1] == rkey);
    }
}

fn lookup_tool<'a>(table: &'a Vec<(String, CustomTool)>, rkey: &str) -> (r: Option<&'a CustomTool>)
    ensures
        match r {
            Some(t) => table_tool(table@, rkey@) == Some(*t),
            None => table_tool(table@, rkey@) is None,
        },
{
    let mut i: usize = 0;
    assert(table@.skip(0) =~= table@);
    while i < table.len()
        invariant
            i <= table@.len(),
            table_tool(table@, rkey@) == table_tool(table@.skip(i as int), rkey@),
        decreases table.len() - i,
    {
        assert(table@.skip(i as int)[0] == table@[i as int]);
        if str_eq(table[i].0.as_str(), rkey) {
            return Some(&table[i].1);
        }
        assert(table@.skip(i as int).drop_first() =~= table@.skip(i + 1));
        i = i + 1;
    }
    None
}

// ---------------------------------------------------------------------------
// The walk over chained tools
// ---------------------------------------------------------------------------

/// A tool asks for no network, no secrets and no commands.
pub open spec fn base_clean(tool: CustomTool) -> bool {
    let m = tool_model(tool);
    !m.network && m.secrets.is_empty() && m.commands.is_empty()
}

/// The tools a tool calls, in the order they are checked: sorted, without
/// repeats.
pub open spec fn tool_refs(tool: CustomTool) -> Seq<Seq<char>> {
    sorted_list(tool_model(tool).mcp_tools)
}

/// The view of an optional string.
pub open spec fn opt_str(o: Option<&str>) -> Option<Seq<char>> {
    match o {
        Some(s) => Some(s@),
        None => None,
    }
}

/// The walk from `tool`, with the record keys met so far: whether it
/// succeeds, and the keys met when it stops.  `n` bounds the depth of
/// chaining; from the top it is one more than the number of local tools,
/// which the walk never reaches.
pub open spec fn walk(
    n: nat,
    tool: CustomTool,
    did: Option<Seq<char>>,
    table: Seq<(String, CustomTool)>,
    visited: Seq<Seq<char>>,
) -> (bool, Seq<Seq<char>>)
    decreases n, tool_refs(tool).len() + 1,
{
    if !base_clean(tool) {
        (false, visited)
    } else {
        walk_refs(n, tool_refs(tool), 0, did, table, visited)
    }
}

/// The walk over the references `refs[k..]` of one tool.  A built-in
/// tool must be safe; a custom tool must be ours, not met before, held
/// locally, and pass the walk itself.
pub open spec fn walk_refs(
    n: nat,
    refs: Seq<Seq<char>>,
    k: int,
    did: Option<Seq<char>>,
    table: Seq<(String, CustomTool)>,
    visited: Seq<Seq<char>>,
) -> (bool, Seq<Seq<char>>)
    decreases n, refs.len() - k,
{
    if k < 0 || k >= refs.len() {
        (true, visited)
    } else {
        let r = refs[k];
        if is_at_uri_spec(r) {
            match at_uri_parts(r) {
                None => (false, visited),
                Some((d, _c, rkey)) => if did != Some(d) {
                    (false, visited)
                } else if visited.contains(rkey) {
                    (false, visited)
                } else {
                    let v2 = visited.push(rkey);
                    match table_tool(table, rkey) {
                        None => (false, v2),
                        Some(u) => if n == 0 {
                            (false, v2)
                        } else {
                            let (ok, v3) = walk((n - 1) as nat, u, did, table, v2);
                            if !ok {
                                (false, v3)
                            } else {
                                walk_refs(n, refs, k + 1, did, table, v3)
                            }
                        },
                    }
                },
            }
        } else if !is_safe_tool_name(r) {
            (false, visited)
        } else {
            walk_refs(n, refs, k + 1, did, table, visited)
        }
    }
}

/// A tool can be approved automatically: the walk from it, with nothing
/// met yet, succeeds.
pub open spec fn auto_approvable(tool: CustomTool, did: Option<Seq<char>>, table: Seq<(String, CustomTool)>) -> bool {
    walk((table.len() + 1) as nat, tool, did, table, Seq::empty()).0
}

/// The keys met are distinct keys of local tools.
pub open spec fn visited_ok(visited: Seq<Seq<char>>, table: Seq<(String, CustomTool)>) -> bool {
    visited.no_duplicates() && forall|i: int|
        0 <= i < visited.len() ==> table_tool(table, #[trigger] visited[i]) is Some
}

/// Distinct keys of local tools are no more than the local tools.
proof fn lemma_visited_bound(visited: Seq<Seq<char>>, table: Seq<(String, CustomTool)>)
    requires
        visited_ok(visited, table),
    ensures
        visited.len() <= table.len(),
{
    let keys = table_keys(table);
    assert forall|x: Seq<char>| visited.to_set().contains(x) implies keys.to_set().contains(x) by {
        let i = choose|i: int| 0 <= i < visited.len() && visited[i] == x;
        lemma_table_tool_key(table, visited[i]);
    }
    visited.unique_seq_to_set();
    keys.lemma_cardinality_of_set();
    vstd::set_lib::lemma_len_subset(visited.to_set(), keys.to_set());
}

fn walk_tool(
    tool: &CustomTool,
    did: Option<&str>,
    table: &Vec<(String, CustomTool)>,
    visited: &mut Vec<String>,
    Ghost(n): Ghost<nat>,
) -> (r: bool)
    requires
        visited_ok(string_views(old(visited)@), table@),
        n + old(visited)@.len() >= table@.len() + 1,
    ensures
        (r, string_views(final(visited)@)) == walk(n, *tool, opt_str(did), table@, string_views(old(visited)@)),
        r ==> visited_ok(string_views(final(visited)@), table@),
        r ==> final(visited)@.len() >= old(visited)@.len(),
    decreases n,
{
    let ghost dv = opt_str(did);
    let ghost v0 = string_views(visited@);
    let perms = PermissionVec::from_tool(tool);
    if perms.network || !perms.secrets.is_empty() || !perms.commands.is_empty() {
        return false;
    }
    let refs = &perms.mcp_tools;
    proof {
        refs.lemma_elems_sorted();
    }
    let ghost rs = refs.elems();
    assert(rs == tool_refs(*tool));
    let mut i: usize = 0;
    while i < refs.len()
        invariant
            i <= rs.len(),
            rs == refs.elems(),
            dv == opt_str(did),
            v0 == string_views(old(visited)@),
            visited_ok(string_views(visited@), table@),
            n + visited@.len() >= table@.len() + 1,
            walk(n, *tool, dv, table@, v0) == walk_refs(n, rs, i as int, dv, table@, string_views(visited@)),
            visited@.len() >= v0.len(),
        decreases rs.len() - i,
    {
        let ghost vi = string_views(visited@);
        let r = refs.get(i);
        assert(rs[i as int] == r@);
        if is_at_uri(r.as_str()) {
            match parse_at_uri(r.as_str()) {
                None => {
                    assert(walk_refs(n, rs, i as int, dv, table@, vi) == (false, vi));
                    return false;
                },
                Some((d, _c, rkey)) => {
                    let local = match did {
                        Some(o) => str_eq(o, d),
                        None => false,
                    };
                    if !local {
                        assert(dv != Some(d@));
                        assert(walk_refs(n, rs, i as int, dv, table@, vi) == (false, vi));
                        return false;
                    }
                    if position_in(visited, rkey).is_some() {
                        return false;
                    }
                    visited.push(String::from_str(rkey));
                    assert(string_views(visited@) =~= vi.push(rkey@));
                    match lookup_tool(table, rkey) {
                        None => {
                            return false;
                        },
                        Some(u) => {
                            proof {
                                let v2 = vi.push(rkey@);
                                assert(v2.no_duplicates()) by {
                                    assert forall|a: int, b: int| 0 <= a < b < v2.len() implies v2[a] != v2[b] by {
                                        if b == vi.len() {
                                            assert(vi.contains(vi[a]));
                                        }
                                    }
                                }
                                assert forall|j: int| 0 <= j < v2.len() implies table_tool(table@, #[trigger] v2[j]) is Some by {
                                    if j < vi.len() {
                                        assert(v2[j] == vi[j]);
                                    }
                                }
                                assert(visited_ok(v2, table@));
                                lemma_visited_bound(v2, table@);
                            }
                            let ok = walk_tool(u, did, table, visited, Ghost((n - 1) as nat));
                            if !ok {
                                return false;
                            }
                        },
                    }
                },
            }
        } else if !is_safe_mcp_tool(r.as_str()) {
            return false;
        }
        i = i + 1;
    }
    true
}

/// Whether a custom tool can be approved automatically.  `our_did` is the
/// DID of our own PDS; `local_tools` are the tool records held locally,
/// by record key.
pub fn is_auto_approvable(tool: &CustomTool, our_did: Option<&str>, local_tools: &Vec<(String, CustomTool)>) -> (r: bool)
    ensures
        r == auto_approvable(*tool, opt_str(our_did), local_tools@),
{
    let mut visited: Vec<String> = Vec::new();
    assert(string_views(visited@) =~= Seq::<Seq<char>>::empty());
    walk_tool(tool, our_did, local_tools, &mut visited, Ghost((local_tools@.len() + 1) as nat))
}

// ---------------------------------------------------------------------------
// Laws
// ---------------------------------------------------------------------------

/// Every tool reached from `tool` through at most `d` local references is
/// clean: it asks for no network, secrets or commands, calls only safe
/// built-in tools, and chains only to our own tools held locally.
pub open spec fn clean_to_depth(d: nat, tool: CustomTool, did: Option<Seq<char>>, table: Seq<(String, CustomTool)>) -> bool
    decreases d, 1int,
{
    base_clean(tool) && forall|j: int|
        0 <= j < tool_refs(tool).len() ==> ref_clean(d, #[trigger] tool_refs(tool)[j], did, table)
}

/// A reference is clean to depth `d`: a safe built-in tool, or one of our
/// own tools, held locally and (while depth remains) clean itself.
pub open spec fn ref_clean(d: nat, r: Seq<char>, did: Option<Seq<char>>, table: Seq<(String, CustomTool)>) -> bool
    decreases d, 0int,
{
    if is_at_uri_spec(r) {
        match at_uri_parts(r) {
            Some((dd, _c, rkey)) => did == Some(dd) && match table_tool(table, rkey) {
                Some(u) => d > 0 ==> clean_to_depth((d - 1) as nat, u, did, table),
                None => false,
            },
            None => false,
        }
    } else {
        is_safe_tool_name(r)
    }
}

proof fn lemma_walk_sound(
    n: nat,
    tool: CustomTool,
    did: Option<Seq<char>>,
    table: Seq<(String, CustomTool)>,
    visited: Seq<Seq<char>>,
)
    requires
        walk(n, tool, did, table, visited).0,
    ensures
        clean_to_depth(n, tool, did, table),
    decreases n, tool_refs(tool).len() + 1,
{
    lemma_refs_sound(n, tool_refs(tool), 0, did, table, visited);
}

proof fn lemma_refs_sound(
    n: nat,
    refs: Seq<Seq<char>>,
    k: int,
    did: Option<Seq<char>>,
    table: Seq<(String, CustomTool)>,
    visited: Seq<Seq<char>>,
)
    requires
        0 <= k,
        walk_refs(n, refs, k, did, table, visited).0,
    ensures
        forall|j: int| k <= j < refs.len() ==> ref_clean(n, #[trigger] refs[j], did, table),
    decreases n, refs.len() - k,
{
    if k < refs.len() {
        let r = refs[k];
        if is_at_uri_spec(r) {
            let (d, c, rkey) = at_uri_parts(r)->0;
            let v2 = visited.push(rkey);
            let u = table_tool(table, rkey)->0;
            let (ok, v3) = walk((n - 1) as nat, u, did, table, v2);
            lemma_walk_sound((n - 1) as nat, u, did, table, v2);
            lemma_refs_sound(n, refs, k + 1, did, table, v3);
        } else {
            lemma_refs_sound(n, refs, k + 1, did, table, visited);
        }
    }
}

/// Automatic approval lets no chain of tools escalate: every tool reached
/// from an automatically approvable tool, through up to one more local
/// reference than there are local tools, asks for no network, secrets or
/// commands, calls only safe built-in tools, and chains only to our own
/// tools held locally.
pub proof fn law_auto_approval_sound(tool: CustomTool, did: Option<Seq<char>>, table: Seq<(String, CustomTool)>)
    requires
        auto_approvable(tool, did, table),
    ensures
        clean_to_depth((table.len() + 1) as nat, tool, did, table),
{
    lemma_walk_sound((table.len() + 1) as nat, tool, did, table, Seq::empty());
}

/// The keys met before the walk are still met after it.
proof fn lemma_walk_keeps(
    n: nat,
    tool: CustomTool,
    did: Option<Seq<char>>,
    table: Seq<(String, CustomTool)>,
    visited: Seq<Seq<char>>,
)
    ensures
        forall|x: Seq<char>| visited.contains(x) ==> #[trigger] walk(n, tool, did, table, visited).1.contains(x),
    decreases n, tool_refs(tool).len() + 1,
{
    let res = walk(n, tool, did, table, visited);
    if base_clean(tool) {
        lemma_refs_keep(n, tool_refs(tool), 0, did, table, visited);
        assert(res == walk_refs(n, tool_refs(tool), 0, did, table, visited));
    }
    assert forall|x: Seq<char>| visited.contains(x) implies #[trigger] res.1.contains(x) by {
        if base_clean(tool) {
            assert(walk_refs(n, tool_refs(tool), 0, did, table, visited).1.contains(x));
        }
    }
}

proof fn lemma_refs_keep(
    n: nat,
    refs: Seq<Seq<char>>,
    k: int,
    did: Option<Seq<char>>,
    table: Seq<(String, CustomTool)>,
    visited: Seq<Seq<char>>,
)
    ensures
        forall|x: Seq<char>|
            visited.contains(x) ==> #[trigger] walk_refs(n, refs, k, did, table, visited).1.contains(x),
    decreases n, refs.len() - k,
{
    let res = walk_refs(n, refs, k, did, table, visited);
    if 0 <= k < refs.len() {
        let r = refs[k];
        if is_at_uri_spec(r) {
            match at_uri_parts(r) {
                None => {},
                Some((d, c, rkey)) => {
                    if did == Some(d) && !visited.contains(rkey) {
                        let v2 = visited.push(rkey);
                        assert forall|x: Seq<char>| visited.contains(x) implies v2.contains(x) by {
                            let i = choose|i: int| 0 <= i < visited.len() && visited[i] == x;
                            assert(v2[i] == x);
                        }
                        match table_tool(table, rkey) {
                            None => {},
                            Some(u) => {
                                if n > 0 {
                                    let (ok, v3) = walk((n - 1) as nat, u, did, table, v2);
                                    lemma_walk_keeps((n - 1) as nat, u, did, table, v2);
                                    assert forall|x: Seq<char>| visited.contains(x) implies v3.contains(x) by {
                                        assert(v2.contains(x));
                                        assert(walk((n - 1) as nat, u, did, table, v2).1.contains(x));
                                    }
                                    if ok {
                                        lemma_refs_keep(n, refs, k + 1, did, table, v3);
                                        assert forall|x: Seq<char>| visited.contains(x) implies #[trigger] res.1.contains(x) by {
                                            assert(v3.contains(x));
                                            assert(walk_refs(n, refs, k + 1, did, table, v3).1.contains(x));
                                        }
                                    }
                                }
                            },
                        }
                    }
                },
            }
        } else if is_safe_tool_name(r) {
            lemma_refs_keep(n, refs, k + 1, did, table, visited);
            assert forall|x: Seq<char>| visited.contains(x) implies #[trigger] res.1.contains(x) by {
                assert(walk_refs(n, refs, k + 1, did, table, visited).1.contains(x));
            }
        }
    }
}

/// The record key of an AT URI.
pub open spec fn uri_rkey(u: Seq<char>) -> Seq<char> {
    match at_uri_parts(u) {
        Some((_d, _c, k)) => k,
        None => Seq::empty(),
    }
}

/// A successful walk over references met none of their local keys before.
proof fn lemma_refs_fresh(
    n: nat,
    refs: Seq<Seq<char>>,
    k: int,
    did: Option<Seq<char>>,
    table: Seq<(String, CustomTool)>,
    visited: Seq<Seq<char>>,
    j: int,
)
    requires
        0 <= k <= j < refs.len(),
        walk_refs(n, refs, k, did, table, visited).0,
        is_at_uri_spec(refs[j]),
    ensures
        at_uri_parts(refs[j]) is Some && !visited.contains(uri_rkey(refs[j])),
    decreases refs.len() - k,
{
    let r = refs[k];
    if k < j {
        if is_at_uri_spec(r) {
            let (d, c, rkey) = at_uri_parts(r)->0;
            let v2 = visited.push(rkey);
            let u = table_tool(table, rkey)->0;
            let (ok, v3) = walk((n - 1) as nat, u, did, table, v2);
            lemma_walk_keeps((n - 1) as nat, u, did, table, v2);
            lemma_refs_fresh(n, refs, k + 1, did, table, v3, j);
            let q = uri_rkey(refs[j]);
            if visited.contains(q) {
                let i = choose|i: int| 0 <= i < visited.len() && visited[i] == q;
                assert(v2[i] == q);
                assert(v3.contains(q));
            }
        } else {
            lemma_refs_fresh(n, refs, k + 1, did, table, visited, j);
        }
    }
}

/// A successful walk over references passed, at each local reference, the
/// walk from the tool it names, with its key newly met.
proof fn lemma_refs_entered(
    n: nat,
    refs: Seq<Seq<char>>,
    k: int,
    did: Option<Seq<char>>,
    table: Seq<(String, CustomTool)>,
    visited: Seq<Seq<char>>,
    j: int,
) -> (before: Seq<Seq<char>>)
    requires
        0 <= k <= j < refs.len(),
        walk_refs(n, refs, k, did, table, visited).0,
        is_at_uri_spec(refs[j]),
    ensures
        at_uri_parts(refs[j]) is Some,
        table_tool(table, uri_rkey(refs[j])) is Some,
        n > 0,
        walk(
            (n - 1) as nat,
            table_tool(table, uri_rkey(refs[j]))->0,
            did,
            table,
            before.push(uri_rkey(refs[j])),
        ).0,
    decreases refs.len() - k,
{
    let r = refs[k];
    if k == j {
        visited
    } else if is_at_uri_spec(r) {
        let (d, c, rkey) = at_uri_parts(r)->0;
        let v2 = visited.push(rkey);
        let u = table_tool(table, rkey)->0;
        let (ok, v3) = walk((n - 1) as nat, u, did, table, v2);
        lemma_refs_entered(n, refs, k + 1, did, table, v3, j)
    } else {
        lemma_refs_entered(n, refs, k + 1, did, table, visited, j)
    }
}

/// A tool that chains back to itself (a local reference to the record key
/// it is stored under) is never approved automatically.
pub proof fn law_self_reference_refused(
    tool: CustomTool,
    did: Option<Seq<char>>,
    table: Seq<(String, CustomTool)>,
    key: Seq<char>,
    j: int,
)
    requires
        table_tool(table, key) == Some(tool),
        0 <= j < tool_refs(tool).len(),
        is_at_uri_spec(tool_refs(tool)[j]),
        at_uri_parts(tool_refs(tool)[j]) matches Some((d, _c, k)) && k == key && did == Some(d),
    ensures
        !auto_approvable(tool, did, table),
{
    let n = (table.len() + 1) as nat;
    let refs = tool_refs(tool);
    if auto_approvable(tool, did, table) {
        let before = lemma_refs_entered(n, refs, 0, did, table, Seq::empty(), j);
        let inner = before.push(key);
        assert(walk((n - 1) as nat, tool, did, table, inner).0);
        lemma_refs_fresh((n - 1) as nat, refs, 0, did, table, inner, j);
        assert(inner[before.len() as int] == key);
        assert(inner.contains(key));
    }
}

} // verus!
