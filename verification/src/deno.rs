//! The sandbox of custom tools: which Deno permissions a tool gets, and
//! how the result of a run is judged.  Starting the process happens
//! outside the library.

use vstd::prelude::*;
use crate::text::{join_with, join_strings, decimal, decimal_string};
use crate::strset::string_views;
use crate::json::{json_string_literal, quote_json};

verus! {

/// The default time limit of a tool run, in seconds.
pub const DEFAULT_TIMEOUT_SECS: u64 = 30;

/// Errors from Deno execution that the library decides.
#[derive(Debug)]
pub enum DenoError {
    Timeout(u64),
    ExecutionFailed(String),
    DenoNotFound,
    InvalidOutput(String),
}

/// The text of a Deno error.
pub open spec fn deno_error_text(e: DenoError) -> Seq<char> {
    match e {
        DenoError::Timeout(ms) => "execution timeout after "@ + decimal(ms as nat) + "ms"@,
        DenoError::ExecutionFailed(m) => "Deno execution failed: "@ + m@,
        DenoError::DenoNotFound => "Deno not found - is Deno installed?"@,
        DenoError::InvalidOutput(m) => "invalid tool output: "@ + m@,
    }
}

impl DenoError {
    /// The human-readable text of the error.
    pub fn message(&self) -> (r: String)
        ensures
            r@ == deno_error_text(*self),
    {
        match self {
            DenoError::Timeout(ms) => {
                let mut m = String::from_str("execution timeout after ");
                let d = decimal_string(*ms);
                m.append(d.as_str());
                m.append("ms");
                m
            },
            DenoError::ExecutionFailed(why) => {
                let mut m = String::from_str("Deno execution failed: ");
                m.append(why.as_str());
                m
            },
            DenoError::DenoNotFound => String::from_str("Deno not found - is Deno installed?"),
            DenoError::InvalidOutput(why) => {
                let mut m = String::from_str("invalid tool output: ");
                m.append(why.as_str());
                m
            },
        }
    }
}

/// Workspace access permissions.
#[derive(Debug, Clone)]
pub struct WorkspacePermission {
    /// The workspace directory path.
    pub path: String,
    /// Whether read access is granted.
    pub read: bool,
    /// Whether write access is granted.
    pub write: bool,
}

/// Permissions granted to a Deno tool.
#[derive(Debug, Clone)]
pub struct DenoPermissions {
    /// Whether the tool can access the network.
    pub network: bool,
    /// Secrets to expose as environment variables, by variable name
    /// (e.g. `WINTER_SECRET_API_KEY`).
    pub secrets: Vec<(String, String)>,
    /// Workspace directory access.
    pub workspace: Option<WorkspacePermission>,
    /// Subprocess commands the tool can run (e.g. `git`).
    pub allowed_commands: Vec<String>,
    /// MCP tools this tool is allowed to call via chaining.
    pub allowed_tools: Vec<String>,
    /// Tool name to AT URI, for custom tools in `allowed_tools`.
    pub tool_name_map: Vec<(String, String)>,
    /// Token for authenticating to the internal MCP endpoint.
    pub tool_token: Option<String>,
    /// URL of the MCP server's internal endpoint.
    pub mcp_url: Option<String>,
}

/// Executor for Deno-based custom tools.
#[derive(Debug, Clone, Copy)]
pub struct DenoExecutor {
    /// Time limit of a run.
    pub timeout: std::time::Duration,
}

impl DenoExecutor {
    /// Create a new executor with a custom timeout.
    pub fn new(timeout: std::time::Duration) -> (r: DenoExecutor)
        ensures
            r.timeout == timeout,
    {
        DenoExecutor { timeout }
    }
}

/// The names of the secret variables, in order.
pub open spec fn secret_names(p: DenoPermissions) -> Seq<Seq<char>> {
    p.secrets@.map_values(|e: (String, String)| e.0@)
}

/// The environment variables the tool may read: the proxy settings when
/// it has network, its secrets, the workspace path, and the chaining
/// endpoint when it may call tools.
pub open spec fn env_allowlist(p: DenoPermissions) -> Seq<Seq<char>> {
    (if p.network {
        seq![
            "HTTP_PROXY"@,
            "HTTPS_PROXY"@,
            "NO_PROXY"@,
            "http_proxy"@,
            "https_proxy"@,
            "no_proxy"@,
        ]
    } else {
        Seq::empty()
    }) + secret_names(p) + seq!["WINTER_WORKSPACE"@] + (if p.allowed_tools@.len() > 0 {
        seq!["WINTER_MCP_URL"@, "WINTER_TOOL_TOKEN"@]
    } else {
        Seq::empty()
    })
}

/// The paths the tool may read: its code, the wrapper, the system
/// certificates when it has network, and the workspace when granted.
pub open spec fn read_allowlist(
    p: DenoPermissions,
    tool_path: Seq<char>,
    wrapper_path: Seq<char>,
    cert_paths: Seq<char>,
) -> Seq<char> {
    tool_path + ","@ + wrapper_path + (if p.network {
        cert_paths
    } else {
        Seq::empty()
    }) + match p.workspace {
        Some(w) => if w.read {
            ","@ + w.path@
        } else {
            Seq::empty()
        },
        None => Seq::empty(),
    }
}

/// The arguments of `deno`: deny by default, network only when granted
/// (or to localhost for tool chaining), the readable variables and paths,
/// workspace writes and subprocesses only when granted, then the wrapper.
pub open spec fn deno_args_spec(
    p: DenoPermissions,
    tool_path: Seq<char>,
    wrapper_path: Seq<char>,
    cert_paths: Seq<char>,
) -> Seq<Seq<char>> {
    seq!["run"@, "--no-prompt"@] + (if p.network {
        seq!["--allow-net"@]
    } else if p.allowed_tools@.len() > 0 {
        seq!["--allow-net=127.0.0.1,localhost"@]
    } else {
        Seq::empty()
    }) + seq!["--allow-env="@ + join_with(env_allowlist(p), ","@)] + seq![
        "--allow-read="@ + read_allowlist(p, tool_path, wrapper_path, cert_paths),
    ] + (match p.workspace {
        Some(w) => if w.write {
            seq!["--allow-write="@ + w.path@]
        } else {
            Seq::empty()
        },
        None => Seq::empty(),
    }) + (if p.allowed_commands@.len() > 0 {
        seq!["--allow-run="@ + join_with(string_views(p.allowed_commands@), ","@)]
    } else {
        Seq::empty()
    }) + seq![wrapper_path]
}

/// Push a copy of a literal.
fn push_str(v: &mut Vec<String>, s: &str)
    ensures
        string_views(final(v)@) == string_views(old(v)@).push(s@),
{
    let ghost before = v@;
    v.push(String::from_str(s));
    proof {
        crate::strset::lemma_map_push(before, v@.last(), |x: String| x@);
    }
}

/// Push a string.
fn push_string(v: &mut Vec<String>, s: String)
    ensures
        string_views(final(v)@) == string_views(old(v)@).push(s@),
{
    let ghost before = v@;
    v.push(s);
    proof {
        crate::strset::lemma_map_push(before, s, |x: String| x@);
    }
}

/// The environment variables the tool may read.
pub fn env_allowlist_of(p: &DenoPermissions) -> (r: Vec<String>)
    ensures
        string_views(r@) == env_allowlist(*p),
{
    let mut vars: Vec<String> = Vec::new();
    assert(string_views(vars@) =~= Seq::<Seq<char>>::empty());
    if p.network {
        push_str(&mut vars, "HTTP_PROXY");
        push_str(&mut vars, "HTTPS_PROXY");
        push_str(&mut vars, "NO_PROXY");
        push_str(&mut vars, "http_proxy");
        push_str(&mut vars, "https_proxy");
        push_str(&mut vars, "no_proxy");
    }
    let ghost base = string_views(vars@);
    let mut i: usize = 0;
    while i < p.secrets.len()
        invariant
            i <= p.secrets@.len(),
            string_views(vars@) == base + secret_names(*p).take(i as int),
        decreases p.secrets@.len() - i,
    {
        push_string(&mut vars, p.secrets[i].0.clone());
        assert(secret_names(*p).take(i + 1) =~= secret_names(*p).take(i as int).push(
            p.secrets@[i as int].0@,
        ));
        i = i + 1;
    }
    assert(secret_names(*p).take(i as int) =~= secret_names(*p));
    push_str(&mut vars, "WINTER_WORKSPACE");
    if p.allowed_tools.len() > 0 {
        push_str(&mut vars, "WINTER_MCP_URL");
        push_str(&mut vars, "WINTER_TOOL_TOKEN");
    }
    assert(string_views(vars@) =~= env_allowlist(*p));
    vars
}

/// The arguments of `deno run` for a tool: `tool_path` holds its code,
/// `wrapper_path` the wrapper that runs it, and `cert_paths` the
/// platform's certificate locations, each preceded by a comma.
pub fn deno_args(
    p: &DenoPermissions,
    tool_path: &str,
    wrapper_path: &str,
    cert_paths: &str,
) -> (r: Vec<String>)
    ensures
        string_views(r@) == deno_args_spec(*p, tool_path@, wrapper_path@, cert_paths@),
{
    let ghost net_part: Seq<Seq<char>> = if p.network {
        seq!["--allow-net"@]
    } else if p.allowed_tools@.len() > 0 {
        seq!["--allow-net=127.0.0.1,localhost"@]
    } else {
        Seq::empty()
    };
    let ghost write_part: Seq<Seq<char>> = match &p.workspace {
        Some(w) => if w.write {
            seq!["--allow-write="@ + w.path@]
        } else {
            Seq::empty()
        },
        None => Seq::empty(),
    };
    let ghost run_part: Seq<Seq<char>> = if p.allowed_commands@.len() > 0 {
        seq!["--allow-run="@ + join_with(string_views(p.allowed_commands@), ","@)]
    } else {
        Seq::empty()
    };
    let mut args: Vec<String> = Vec::new();
    assert(string_views(args@) =~= Seq::<Seq<char>>::empty());
    push_str(&mut args, "run");
    push_str(&mut args, "--no-prompt");
    if p.network {
        push_str(&mut args, "--allow-net");
    } else if p.allowed_tools.len() > 0 {
        push_str(&mut args, "--allow-net=127.0.0.1,localhost");
    }
    assert(string_views(args@) =~= seq!["run"@, "--no-prompt"@] + net_part);
    let vars = env_allowlist_of(p);
    let mut env_arg = String::from_str("--allow-env=");
    let joined = join_strings(&vars, ",");
    env_arg.append(joined.as_str());
    push_string(&mut args, env_arg);
    let mut read_arg = String::from_str("--allow-read=");
    read_arg.append(tool_path);
    read_arg.append(",");
    read_arg.append(wrapper_path);
    if p.network {
        read_arg.append(cert_paths);
    }
    match &p.workspace {
        Some(w) => {
            if w.read {
                read_arg.append(",");
                read_arg.append(w.path.as_str());
            }
        },
        None => {},
    }
    assert(read_arg@ =~= "--allow-read="@ + read_allowlist(*p, tool_path@, wrapper_path@, cert_paths@));
    push_string(&mut args, read_arg);
    let ghost head = seq!["run"@, "--no-prompt"@] + net_part + seq![
        "--allow-env="@ + join_with(env_allowlist(*p), ","@),
    ] + seq!["--allow-read="@ + read_allowlist(*p, tool_path@, wrapper_path@, cert_paths@)];
    assert(string_views(args@) =~= head);
    match &p.workspace {
        Some(w) => {
            if w.write {
                let mut write_arg = String::from_str("--allow-write=");
                write_arg.append(w.path.as_str());
                push_string(&mut args, write_arg);
            }
        },
        None => {},
    }
    assert(string_views(args@) =~= head + write_part);
    if p.allowed_commands.len() > 0 {
        let mut run_arg = String::from_str("--allow-run=");
        let cmds = join_strings(&p.allowed_commands, ",");
        run_arg.append(cmds.as_str());
        push_string(&mut args, run_arg);
    }
    assert(string_views(args@) =~= head + write_part + run_part);
    push_str(&mut args, wrapper_path);
    assert(string_views(args@) =~= deno_args_spec(*p, tool_path@, wrapper_path@, cert_paths@));
    args
}

/// Judge a finished run: a failed process reports its error output; a
/// wrapper that caught an error reports the error (or `unknown error`).
pub fn judge_run(
    process_ok: bool,
    stderr: String,
    wrapper_success: bool,
    wrapper_error: Option<String>,
) -> (r: Result<(), DenoError>)
    ensures
        !process_ok ==> (r matches Err(DenoError::ExecutionFailed(m)) && m@ == stderr@),
        process_ok && !wrapper_success ==> (r matches Err(DenoError::ExecutionFailed(m)) && m@
            == match wrapper_error {
            Some(e) => e@,
            None => "unknown error"@,
        }),
        process_ok && wrapper_success ==> r is Ok,
{
    if !process_ok {
        return Err(DenoError::ExecutionFailed(stderr));
    }
    if !wrapper_success {
        let why = match wrapper_error {
            Some(e) => e,
            None => String::from_str("unknown error"),
        };
        return Err(DenoError::ExecutionFailed(why));
    }
    Ok(())
}

/// The sandbox grants unrestricted network exactly when the permissions
/// do, and no network at all without it or tool chaining.
pub proof fn law_network_only_when_granted(
    p: DenoPermissions,
    tool_path: Seq<char>,
    wrapper_path: Seq<char>,
    cert_paths: Seq<char>,
)
    ensures
        deno_args_spec(p, tool_path, wrapper_path, cert_paths)[2] == "--allow-net"@ <==> p.network,
        !p.network && p.allowed_tools@.len() == 0 ==> deno_args_spec(
            p,
            tool_path,
            wrapper_path,
            cert_paths,
        ).len() == 5 + (if p.workspace matches Some(w) && w.write {
            1int
        } else {
            0
        }) + (if p.allowed_commands@.len() > 0 {
            1int
        } else {
            0
        }),
{
    reveal_strlit("--allow-net");
    reveal_strlit("--allow-net=127.0.0.1,localhost");
    reveal_strlit("--allow-env=");
    let a = deno_args_spec(p, tool_path, wrapper_path, cert_paths);
    if !p.network && p.allowed_tools@.len() > 0 {
        assert("--allow-net=127.0.0.1,localhost"@.len() != "--allow-net"@.len());
    }
    if !p.network && p.allowed_tools@.len() == 0 {
        assert(a[2] == "--allow-env="@ + join_with(env_allowlist(p), ","@));
        assert(a[2].len() >= "--allow-env="@.len());
        assert(a[2][8] == "--allow-env="@[8]);
        assert("--allow-env="@[8] != "--allow-net"@[8]);
    }
}

/// `arg` grants reading a list of paths that ends with `path`.
pub open spec fn reads_path(arg: Seq<char>, path: Seq<char>) -> bool {
    "--allow-read="@.is_prefix_of(arg) && (","@ + path).is_suffix_of(arg)
}

/// A workspace read grant reaches the sandbox, whether or not writes are
/// granted too: the `--allow-read` argument ends with the workspace path.
pub proof fn law_workspace_read_granted(
    p: DenoPermissions,
    tool_path: Seq<char>,
    wrapper_path: Seq<char>,
    cert_paths: Seq<char>,
)
    requires
        p.workspace matches Some(w) && w.read,
    ensures
        exists|i: int|
            0 <= i < deno_args_spec(p, tool_path, wrapper_path, cert_paths).len() && reads_path(
                #[trigger] deno_args_spec(p, tool_path, wrapper_path, cert_paths)[i],
                p.workspace->Some_0.path@,
            ),
{
    let a = deno_args_spec(p, tool_path, wrapper_path, cert_paths);
    let w = p.workspace->Some_0;
    let net: Seq<Seq<char>> = if p.network {
        seq!["--allow-net"@]
    } else if p.allowed_tools@.len() > 0 {
        seq!["--allow-net=127.0.0.1,localhost"@]
    } else {
        Seq::empty()
    };
    let i: int = 3 + net.len() as int;
    let listed = tool_path + ","@ + wrapper_path + (if p.network { cert_paths } else { Seq::empty() });
    let head = "--allow-read="@;
    let tail = ","@ + w.path@;
    assert(a[i] == head + read_allowlist(p, tool_path, wrapper_path, cert_paths));
    assert(read_allowlist(p, tool_path, wrapper_path, cert_paths) =~= listed + tail);
    let arg = a[i];
    assert(arg =~= head + listed + tail);
    assert(head =~= arg.subrange(0, head.len() as int));
    assert(tail =~= arg.subrange((arg.len() - tail.len()) as int, arg.len() as int));
    assert(reads_path(a[i], w.path@));
}

/// A workspace write grant reaches the sandbox as `--allow-write` with the
/// workspace path, and subprocesses are allowed exactly when commands are.
pub proof fn law_workspace_write_and_commands(
    p: DenoPermissions,
    tool_path: Seq<char>,
    wrapper_path: Seq<char>,
    cert_paths: Seq<char>,
)
    ensures
        p.workspace matches Some(w) && w.write ==> deno_args_spec(
            p,
            tool_path,
            wrapper_path,
            cert_paths,
        ).contains("--allow-write="@ + p.workspace->Some_0.path@),
        p.allowed_commands@.len() > 0 ==> deno_args_spec(p, tool_path, wrapper_path, cert_paths).contains(
            "--allow-run="@ + join_with(string_views(p.allowed_commands@), ","@),
        ),
        deno_args_spec(p, tool_path, wrapper_path, cert_paths).last() == wrapper_path,
{
    let a = deno_args_spec(p, tool_path, wrapper_path, cert_paths);
    let net: Seq<Seq<char>> = if p.network {
        seq!["--allow-net"@]
    } else if p.allowed_tools@.len() > 0 {
        seq!["--allow-net=127.0.0.1,localhost"@]
    } else {
        Seq::empty()
    };
    let i: int = 4 + net.len() as int;
    if p.workspace matches Some(w) && w.write {
        assert(a[i] == "--allow-write="@ + p.workspace->Some_0.path@);
    }
    if p.allowed_commands@.len() > 0 {
        let j: int = if p.workspace matches Some(w) && w.write { i + 1 } else { i };
        assert(a[j] == "--allow-run="@ + join_with(string_views(p.allowed_commands@), ","@));
    }
}

// ---------------------------------------------------------------------------
// The wrapper script
// ---------------------------------------------------------------------------

/// The text of the chaining helper before the allowed tools.
pub const CHAIN_HEAD: &'static str = "\nconst _mcpUrl = Deno.env.get(\"WINTER_MCP_URL\") || \"\";\nconst _toolToken = Deno.env.get(\"WINTER_TOOL_TOKEN\") || \"\";\nconst _allowedTools: string[] = ";

/// The text of the chaining helper between the allowed tools and the name map.
pub const CHAIN_MIDDLE: &'static str = ";\nconst _toolNameMap: Record<string, string> = ";

/// The text of the chaining helper after the name map.
pub const CHAIN_TAIL: &'static str = ";\nfunction _resolveToolRef(toolRef: string): string {\n    if (_toolNameMap[toolRef]) return _toolNameMap[toolRef];\n    return toolRef;\n}\nasync function callTool(toolRef: string, args: Record<string, unknown>): Promise<unknown> {\n    const resolved = _resolveToolRef(toolRef);\n    if (!_allowedTools.includes(resolved)) {\n        throw new Error(`Tool '${toolRef}' is not in the allowed tools list: ${_allowedTools.join(\", \")}`);\n    }\n    if (!_mcpUrl || !_toolToken) {\n        throw new Error(\"Tool chaining not configured (missing MCP URL or token)\");\n    }\n    const resp = await fetch(`${_mcpUrl}/mcp/internal`, {\n        method: \"POST\",\n        headers: { \"Content-Type\": \"application/json\", \"X-Tool-Token\": _toolToken },\n        body: JSON.stringify({ tool_ref: resolved, arguments: args }),\n    });\n    if (!resp.ok) {\n        const text = await resp.text();\n        throw new Error(`Tool call failed (${resp.status}): ${text}`);\n    }\n    const result = await resp.json();\n    if (!result.success) {\n        throw new Error(result.error || \"Tool call failed\");\n    }\n    return result.result;\n}\n";

/// The text of the wrapper before the tool's path.
pub const WRAPPER_HEAD: &'static str = "\nimport tool from \"file://";

/// The text of the wrapper between the tool's path and the chaining helper.
pub const WRAPPER_IMPORT_END: &'static str = "\";\n";

/// The text of the wrapper between the chaining helper and the secret names.
pub const WRAPPER_MIDDLE: &'static str = "\nasync function readStdin(): Promise<string> {\n    const buf = new Uint8Array(1024 * 1024);\n    let totalRead = 0;\n    const chunks: Uint8Array[] = [];\n    while (true) {\n        const n = await Deno.stdin.read(buf);\n        if (n === null) break;\n        chunks.push(buf.slice(0, n));\n        totalRead += n;\n    }\n    const combined = new Uint8Array(totalRead);\n    let offset = 0;\n    for (const chunk of chunks) {\n        combined.set(chunk, offset);\n        offset += chunk.length;\n    }\n    return new TextDecoder().decode(combined);\n}\nconst secretNames: string[] = ";

/// The text of the wrapper after the secret names.
pub const WRAPPER_TAIL: &'static str = ";\nconst secrets: Record<string, string> = {};\nfor (const name of secretNames) {\n    const value = Deno.env.get(name);\n    if (value !== undefined) {\n        secrets[name.replace(/^WINTER_SECRET_/, \"\")] = value;\n    }\n}\nconst context = {\n    secrets,\n    workspace: Deno.env.get(\"WINTER_WORKSPACE\") || null,\n    callTool: typeof callTool !== \"undefined\" ? callTool : undefined,\n};\nconst input = JSON.parse(await readStdin());\ntry {\n    const result = await tool(input, context);\n    console.log(JSON.stringify({ success: true, result }));\n} catch (error) {\n    console.log(JSON.stringify({ success: false, error: error.message || String(error) }));\n}\n";

/// A JSON array of strings, written compactly.
pub open spec fn json_string_array(items: Seq<Seq<char>>) -> Seq<char> {
    "["@ + join_with(items.map_values(|x: Seq<char>| json_string_literal(x)), ","@) + "]"@
}

/// A JSON object of string members, written compactly in the given order.
pub open spec fn json_string_map(pairs: Seq<(Seq<char>, Seq<char>)>) -> Seq<char> {
    "{"@ + join_with(
        pairs.map_values(|p: (Seq<char>, Seq<char>)| json_string_literal(p.0) + ":"@ + json_string_literal(p.1)),
        ","@,
    ) + "}"@
}

/// The names of the secrets handed to a tool, as environment variables.
pub open spec fn secret_env_names(p: DenoPermissions) -> Seq<Seq<char>> {
    p.secrets@.map_values(|e: (String, String)| e.0@)
}

/// The tool name map as pairs of texts.
pub open spec fn name_map_pairs(p: DenoPermissions) -> Seq<(Seq<char>, Seq<char>)> {
    p.tool_name_map@.map_values(|e: (String, String)| (e.0@, e.1@))
}

/// The chaining helper of the wrapper: `callTool`, which calls the allowed
/// tools (by name or AT URI) through the server's internal endpoint; none
/// when the tool may call no tools.
pub open spec fn chaining_code_spec(p: DenoPermissions) -> Seq<char> {
    if p.allowed_tools@.len() == 0 {
        Seq::empty()
    } else {
        CHAIN_HEAD@ + json_string_array(string_views(p.allowed_tools@)) + CHAIN_MIDDLE@ + json_string_map(
            name_map_pairs(p),
        ) + CHAIN_TAIL@
    }
}

/// The wrapper script that runs the tool at `tool_path`: it imports the
/// tool, reads the input from stdin, hands the tool its secrets (read from
/// the environment), its workspace and `callTool`, and prints the outcome
/// as JSON.
pub open spec fn wrapper_script_spec(tool_path: Seq<char>, p: DenoPermissions) -> Seq<char> {
    WRAPPER_HEAD@ + tool_path + WRAPPER_IMPORT_END@ + chaining_code_spec(p) + WRAPPER_MIDDLE@
        + json_string_array(secret_env_names(p)) + WRAPPER_TAIL@
}

fn quoted_all(items: &Vec<&str>) -> (r: Vec<String>)
    ensures
        string_views(r@) == items@.map_values(|x: &str| json_string_literal(x@)),
{
    let mut out: Vec<String> = Vec::new();
    let mut i: usize = 0;
    while i < items.len()
        invariant
            i <= items@.len(),
            string_views(out@) == items@.take(i as int).map_values(|x: &str| json_string_literal(x@)),
        decreases items@.len() - i,
    {
        let q = quote_json(items[i]);
        let ghost before = string_views(out@);
        out.push(q);
        assert(string_views(out@) =~= before.push(q@));
        assert(items@.take(i + 1) =~= items@.take(i as int).push(items@[i as int]));
        assert(items@.take(i + 1).map_values(|x: &str| json_string_literal(x@)) =~= items@.take(i as int).map_values(
            |x: &str| json_string_literal(x@),
        ).push(json_string_literal(items@[i as int]@)));
        i = i + 1;
    }
    assert(items@.take(i as int) =~= items@);
    out
}

fn string_array_text(items: &Vec<&str>) -> (r: String)
    ensures
        r@ == json_string_array(items@.map_values(|x: &str| x@)),
{
    let q = quoted_all(items);
    assert(string_views(q@) =~= items@.map_values(|x: &str| x@).map_values(|x: Seq<char>| json_string_literal(x)));
    let joined = join_strings(&q, ",");
    let mut r = String::from_str("[");
    r.append(joined.as_str());
    r.append("]");
    r
}

fn map_text(pairs: &Vec<(String, String)>) -> (r: String)
    ensures
        r@ == json_string_map(pairs@.map_values(|e: (String, String)| (e.0@, e.1@))),
{
    let ghost pv = pairs@.map_values(|e: (String, String)| (e.0@, e.1@));
    let ghost f = |p: (Seq<char>, Seq<char>)| json_string_literal(p.0) + ":"@ + json_string_literal(p.1);
    let mut parts: Vec<String> = Vec::new();
    let mut i: usize = 0;
    while i < pairs.len()
        invariant
            i <= pairs@.len(),
            pv == pairs@.map_values(|e: (String, String)| (e.0@, e.1@)),
            f == (|p: (Seq<char>, Seq<char>)| json_string_literal(p.0) + ":"@ + json_string_literal(p.1)),
            string_views(parts@) == pv.take(i as int).map_values(f),
        decreases pairs@.len() - i,
    {
        let mut part = quote_json(pairs[i].0.as_str());
        part.append(":");
        let v = quote_json(pairs[i].1.as_str());
        part.append(v.as_str());
        let ghost before = string_views(parts@);
        parts.push(part);
        assert(string_views(parts@) =~= before.push(part@));
        assert(pv.take(i + 1) =~= pv.take(i as int).push(pv[i as int]));
        assert(pv.take(i + 1).map_values(f) =~= pv.take(i as int).map_values(f).push(f(pv[i as int])));
        i = i + 1;
    }
    assert(pv.take(i as int) =~= pv);
    let joined = join_strings(&parts, ",");
    let mut r = String::from_str("{");
    r.append(joined.as_str());
    r.append("}");
    r
}

fn chaining_code(p: &DenoPermissions) -> (r: String)
    ensures
        r@ == chaining_code_spec(*p),
{
    if p.allowed_tools.len() == 0 {
        return String::new();
    }
    let mut names: Vec<&str> = Vec::new();
    let mut i: usize = 0;
    while i < p.allowed_tools.len()
        invariant
            i <= p.allowed_tools@.len(),
            names@.map_values(|x: &str| x@) == string_views(p.allowed_tools@).take(i as int),
        decreases p.allowed_tools@.len() - i,
    {
        let ghost before = names@.map_values(|x: &str| x@);
        names.push(p.allowed_tools[i].as_str());
        assert(names@.map_values(|x: &str| x@) =~= before.push(p.allowed_tools@[i as int]@));
        assert(string_views(p.allowed_tools@).take(i + 1) =~= string_views(p.allowed_tools@).take(i as int).push(
            p.allowed_tools@[i as int]@,
        ));
        i = i + 1;
    }
    assert(string_views(p.allowed_tools@).take(i as int) =~= string_views(p.allowed_tools@));
    let mut r = String::from_str(CHAIN_HEAD);
    let a = string_array_text(&names);
    r.append(a.as_str());
    r.append(CHAIN_MIDDLE);
    let m = map_text(&p.tool_name_map);
    r.append(m.as_str());
    r.append(CHAIN_TAIL);
    r
}

/// The wrapper script that runs the tool at `tool_path` with permissions
/// `p`.
pub fn wrapper_script(tool_path: &str, p: &DenoPermissions) -> (r: String)
    ensures
        r@ == wrapper_script_spec(tool_path@, *p),
{
    let mut names: Vec<&str> = Vec::new();
    let mut i: usize = 0;
    while i < p.secrets.len()
        invariant
            i <= p.secrets@.len(),
            names@.map_values(|x: &str| x@) == secret_env_names(*p).take(i as int),
        decreases p.secrets@.len() - i,
    {
        let ghost before = names@.map_values(|x: &str| x@);
        names.push(p.secrets[i].0.as_str());
        assert(names@.map_values(|x: &str| x@) =~= before.push(p.secrets@[i as int].0@));
        assert(secret_env_names(*p).take(i + 1) =~= secret_env_names(*p).take(i as int).push(p.secrets@[i as int].0@));
        i = i + 1;
    }
    assert(secret_env_names(*p).take(i as int) =~= secret_env_names(*p));
    let mut r = String::from_str(WRAPPER_HEAD);
    r.append(tool_path);
    r.append(WRAPPER_IMPORT_END);
    let c = chaining_code(p);
    r.append(c.as_str());
    r.append(WRAPPER_MIDDLE);
    let s = string_array_text(&names);
    r.append(s.as_str());
    r.append(WRAPPER_TAIL);
    r
}

} // verus!
