//! Verified core of the Winter MCP server: the permission lattice for
//! chained tools and their approval, query parsing and program assembly,
//! the agent inbox and session bookkeeping, secrets, the checks on the
//! arguments of the record tools, and the digests of tool calls that the
//! thought stream records.

pub mod text;
pub mod strset;
pub mod permissions;
pub mod query;
pub mod summary;
pub mod protocol;
pub mod secrets;
pub mod bluesky;
pub mod records;
pub mod enrich;
pub mod deno;
pub mod http;
pub mod inbox;
pub mod json;
pub mod digest;
pub mod media;
pub mod approval;
pub mod directives;
pub mod custom_tools;
pub mod tool_names;
pub mod blog;
pub mod jobs;
pub mod facts;
pub mod thought;
pub mod notes;
pub mod session;
pub mod declarations;
pub mod pds;
pub mod predicates;
pub mod registry;
pub mod notifications;
pub mod tool_defs;
pub mod routing;
pub mod thread;
