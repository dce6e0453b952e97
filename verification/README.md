# winter_mcp

The verified core of Winter's MCP server, written in Verus.

- `src/` is the library. Every function there carries a contract that
  Verus proves: the permission lattice and session store for chained
  tools, automatic approval of custom tools, query parsing and the
  assembly of Datalog programs, the inbox, secrets, the checks on the
  arguments of each record tool (facts, declarations, directives, notes,
  blog posts, jobs, custom tools, raw PDS access), the tool definitions
  and the routing of a call by tool name, the JSON-RPC answers, the
  flattening of Bluesky threads and their participation metrics, the Deno
  wrapper script, and the digests of tool calls kept in the thought stream.
  Calls into `uuid`, `serde_json`, `base64`, `chrono` and a few `std`
  functions go through small trusted wrappers whose contracts say what
  those return.
- `app/` is the runtime around it: JSON-RPC framing, the stdio and HTTP
  servers, the tool registry, the Bluesky client, Deno processes, files,
  and records fetched from other PDSes. It hands plain values to the
  library and takes its decisions back.
- `tests/` exercises the library through its public functions.
