//! MCP protocol types for JSON-RPC communication, and how a request is
//! routed.  Serialization happens outside the library.

use vstd::prelude::*;
use crate::text::str_eq;
use crate::json::JsonValue;

verus! {

/// JSON-RPC error code for a request that could not be parsed.
pub const PARSE_ERROR: i32 = -32700;

/// JSON-RPC error code for a failed request.
pub const INTERNAL_ERROR: i32 = -32603;

/// The MCP protocol version this server speaks.
pub const PROTOCOL_VERSION: &'static str = "2024-11-05";

/// Client info sent during initialization.
#[derive(Debug, Clone)]
pub struct ClientInfo {
    pub name: String,
    pub version: String,
}

/// Tools capability.
#[derive(Debug, Clone)]
pub struct ToolsCapability {
    pub list_changed: bool,
}

/// Server info returned during initialization.
#[derive(Debug, Clone)]
pub struct ServerInfo {
    pub name: String,
    pub version: String,
}

/// Content returned from a tool call.
#[derive(Debug, Clone)]
pub enum ToolContent {
    Text { text: String },
}

impl ToolContent {
    /// Text content.
    pub fn text(text: String) -> (r: ToolContent)
        ensures
            r == (ToolContent::Text { text }),
    {
        ToolContent::Text { text }
    }
}

/// Result of tools/call.
#[derive(Debug, Clone)]
pub struct CallToolResult {
    pub content: Vec<ToolContent>,
    pub is_error: Option<bool>,
}

impl CallToolResult {
    /// A successful result carrying one text.
    pub fn success(text: String) -> (r: CallToolResult)
        ensures
            r.content@ == seq![ToolContent::Text { text }],
            r.is_error == Some(false),
    {
        let content = vec![ToolContent::text(text)];
        assert(content@ =~= seq![ToolContent::Text { text }]);
        CallToolResult { content, is_error: Some(false) }
    }

    /// A failed result carrying one text.
    pub fn error(text: String) -> (r: CallToolResult)
        ensures
            r.content@ == seq![ToolContent::Text { text }],
            r.is_error == Some(true),
    {
        let content = vec![ToolContent::text(text)];
        assert(content@ =~= seq![ToolContent::Text { text }]);
        CallToolResult { content, is_error: Some(true) }
    }
}

/// What the server does with a request.
#[derive(Debug, Clone, Copy, PartialEq, Eq, Structural)]
pub enum RequestRoute {
    /// A request without an id is a notification: no response.
    Notification,
    /// `initialize`.
    Initialize,
    /// `tools/list`.
    ListTools,
    /// `tools/call`.
    CallTool,
    /// Any other method: an error response.
    UnknownMethod,
}

/// The route of a request: notifications (no id) get no response, the
/// three methods of the protocol are handled, anything else is unknown.
pub open spec fn route_spec(has_id: bool, method: Seq<char>) -> RequestRoute {
    if !has_id {
        RequestRoute::Notification
    } else if method == "initialize"@ {
        RequestRoute::Initialize
    } else if method == "tools/list"@ {
        RequestRoute::ListTools
    } else if method == "tools/call"@ {
        RequestRoute::CallTool
    } else {
        RequestRoute::UnknownMethod
    }
}

/// Decide how to handle a request with or without an id.
pub fn route_request(has_id: bool, method: &str) -> (r: RequestRoute)
    ensures
        r == route_spec(has_id, method@),
{
    if !has_id {
        RequestRoute::Notification
    } else if str_eq(method, "initialize") {
        RequestRoute::Initialize
    } else if str_eq(method, "tools/list") {
        RequestRoute::ListTools
    } else if str_eq(method, "tools/call") {
        RequestRoute::CallTool
    } else {
        RequestRoute::UnknownMethod
    }
}

/// The error message for an unknown method.
pub fn unknown_method_message(method: &str) -> (r: String)
    ensures
        r@ == "Unknown method: "@ + method@,
{
    let mut m = String::from_str("Unknown method: ");
    m.append(method);
    m
}

/// The error message for a request that could not be parsed.
pub fn parse_error_message(detail: &str) -> (r: String)
    ensures
        r@ == "Parse error: "@ + detail@,
{
    let mut m = String::from_str("Parse error: ");
    m.append(detail);
    m
}

/// The server info advertised at initialization.
pub fn server_info(version: &str) -> (r: ServerInfo)
    ensures
        r.name@ == "winter"@,
        r.version@ == version@,
{
    ServerInfo { name: String::from_str("winter"), version: String::from_str(version) }
}

/// The tools capability advertised at initialization: the tool list
/// does not change.
pub fn tools_capability() -> (r: ToolsCapability)
    ensures
        !r.list_changed,
{
    ToolsCapability { list_changed: false }
}

/// The error of a JSON-RPC response.
#[derive(Debug)]
pub struct RpcError {
    pub code: i32,
    pub message: String,
}

/// A JSON-RPC 2.0 response: the request's id, and a result or an error.
#[derive(Debug)]
pub struct RpcResponse {
    pub id: Option<JsonValue>,
    pub result: Option<JsonValue>,
    pub error: Option<RpcError>,
}

/// The response to a request with id `id` (none for a notification) and
/// method `method`, given what handling a known method gave (`outcome`;
/// unknown methods are not handled, and their outcome is not looked at).
/// Notifications get no response.  Otherwise the id is echoed; a result is
/// returned as it is, and an error, or an unknown method, is answered with
/// the internal-error code.
pub fn rpc_response(id: Option<JsonValue>, method: &str, outcome: Result<JsonValue, String>) -> (r: Option<
    RpcResponse,
>)
    ensures
        ({
            let route = route_spec(id is Some, method@);
            match r {
                None => route == RequestRoute::Notification,
                Some(resp) => route != RequestRoute::Notification && resp.id == id && if route
                    == RequestRoute::UnknownMethod {
                    resp.result is None && (resp.error matches Some(e) && e.code == INTERNAL_ERROR
                        && e.message@ == "Unknown method: "@ + method@)
                } else {
                    match outcome {
                        Ok(v) => resp.result == Some(v) && resp.error is None,
                        Err(m) => resp.result is None && (resp.error matches Some(e) && e.code
                            == INTERNAL_ERROR && e.message@ == m@),
                    }
                },
            }
        }),
{
    match route_request(id.is_some(), method) {
        RequestRoute::Notification => None,
        RequestRoute::UnknownMethod => Some(
            RpcResponse {
                id,
                result: None,
                error: Some(RpcError { code: INTERNAL_ERROR, message: unknown_method_message(method) }),
            },
        ),
        _ => match outcome {
            Ok(v) => Some(RpcResponse { id, result: Some(v), error: None }),
            Err(m) => Some(RpcResponse { id, result: None, error: Some(RpcError { code: INTERNAL_ERROR, message: m }) }),
        },
    }
}

/// The response to a request that could not be parsed: no id, and the
/// parse-error code.
pub fn parse_error_response(detail: &str) -> (r: RpcResponse)
    ensures
        r.id is None,
        r.result is None,
        r.error matches Some(e) && e.code == PARSE_ERROR && e.message@ == "Parse error: "@ + detail@,
{
    RpcResponse {
        id: None,
        result: None,
        error: Some(RpcError { code: PARSE_ERROR, message: parse_error_message(detail) }),
    }
}

} // verus!
