//! Tool definitions with the permission that says whether the autonomous
//! agent may call them, and the names under which the agent sees them.

use vstd::prelude::*;
use crate::json::JsonValue;
use crate::strset::string_views;

verus! {

/// A tool as the `tools/list` response describes it.
#[derive(Debug)]
pub struct ToolDefinition {
    pub name: String,
    pub description: String,
    pub input_schema: JsonValue,
}

/// A tool definition with whether the autonomous agent may use it.
#[derive(Debug)]
pub struct ToolMeta {
    pub definition: ToolDefinition,
    pub agent_allowed: bool,
}

impl ToolMeta {
    /// A tool that the agent may use.
    pub fn allowed(definition: ToolDefinition) -> (r: ToolMeta)
        ensures
            r.definition == definition,
            r.agent_allowed,
    {
        ToolMeta { definition, agent_allowed: true }
    }

    /// A tool only the operator may use.
    pub fn operator_only(definition: ToolDefinition) -> (r: ToolMeta)
        ensures
            r.definition == definition,
            !r.agent_allowed,
    {
        ToolMeta { definition, agent_allowed: false }
    }
}

/// The name under which the agent calls a tool of this server.
pub open spec fn agent_tool_name(name: Seq<char>) -> Seq<char> {
    "mcp__winter__"@ + name
}

/// The names of the tools the agent may use, in order, as it calls them.
pub open spec fn agent_tool_names(tools: Seq<ToolMeta>) -> Seq<Seq<char>>
    decreases tools.len(),
{
    if tools.len() == 0 {
        Seq::empty()
    } else {
        let rest = agent_tool_names(tools.drop_last());
        if tools.last().agent_allowed {
            rest.push(agent_tool_name(tools.last().definition.name@))
        } else {
            rest
        }
    }
}

/// The names, in the agent's format, of the tools it may use.
pub fn agent_allowed_tools(tools: &Vec<ToolMeta>) -> (r: Vec<String>)
    ensures
        string_views(r@) == agent_tool_names(tools@),
{
    let mut out: Vec<String> = Vec::new();
    let mut i: usize = 0;
    assert(tools@.take(0) =~= Seq::<ToolMeta>::empty());
    while i < tools.len()
        invariant
            i <= tools@.len(),
            string_views(out@) == agent_tool_names(tools@.take(i as int)),
        decreases tools@.len() - i,
    {
        assert(tools@.take(i + 1).drop_last() =~= tools@.take(i as int));
        assert(tools@.take(i + 1).last() == tools@[i as int]);
        let t = &tools[i];
        if t.agent_allowed {
            let ghost before = string_views(out@);
            let mut n = String::from_str("mcp__winter__");
            n.append(t.definition.name.as_str());
            out.push(n);
            assert(string_views(out@) =~= before.push(agent_tool_name(t.definition.name@)));
        }
        i = i + 1;
    }
    assert(tools@.take(i as int) =~= tools@);
    out
}

/// The definitions of the tools, in order, for the `tools/list` response.
pub fn definitions(tools: Vec<ToolMeta>) -> (r: Vec<ToolDefinition>)
    ensures
        r@ == tools@.map_values(|t: ToolMeta| t.definition),
{
    let mut rest = tools;
    let ghost all = rest@;
    let mut out: Vec<ToolDefinition> = Vec::new();
    // Taken from the back, then put in order.
    let mut back: Vec<ToolDefinition> = Vec::new();
    while rest.len() > 0
        invariant
            rest@.len() <= all.len(),
            rest@ == all.take(rest@.len() as int),
            back@.len() + rest@.len() == all.len(),
            forall|k: int| 0 <= k < back@.len() ==> #[trigger] back@[k] == all[all.len() - 1 - k].definition,
        decreases rest@.len(),
    {
        let ghost n = rest@.len();
        let t = rest.pop().unwrap();
        assert(t == all[n - 1]);
        assert(rest@ =~= all.take(n - 1));
        back.push(t.definition);
    }
    while back.len() > 0
        invariant
            back@.len() + out@.len() == all.len(),
            forall|k: int| 0 <= k < back@.len() ==> #[trigger] back@[k] == all[all.len() - 1 - k].definition,
            forall|k: int| 0 <= k < out@.len() ==> #[trigger] out@[k] == all[k].definition,
        decreases back@.len(),
    {
        let ghost m = back@.len();
        let d = back.pop().unwrap();
        assert(d == all[all.len() - m].definition);
        out.push(d);
    }
    assert(out@ =~= all.map_values(|t: ToolMeta| t.definition));
    out
}

} // verus!
