//! JSON-RPC 2.0 error objects and the MCP methods a request can name.
use vstd::prelude::*;

use crate::text::{cat, chars_of, eq_lit};

verus! {

/// Standard MCP error codes
pub const PARSE_ERROR: i32 = -32700;
pub const INVALID_REQUEST: i32 = -32600;
pub const METHOD_NOT_FOUND: i32 = -32601;
pub const INVALID_PARAMS: i32 = -32602;
pub const INTERNAL_ERROR: i32 = -32603;

/// JSON-RPC 2.0 error object.
#[derive(Debug, Clone)]
pub struct JsonRpcError {
    pub code: i32,
    pub message: String,
}

impl JsonRpcError {
    /// An error object with the given code and message.
    pub fn new(code: i32, message: &str) -> (e: JsonRpcError)
        ensures
            e.code == code,
            e.message@ == message@,
    {
        JsonRpcError { code, message: String::from_str(message) }
    }

    /// -32601 Method not found.
    pub fn method_not_found() -> (e: JsonRpcError)
        ensures
            e.code == METHOD_NOT_FOUND,
            e.message@ == "Method not found"@,
    {
        Self::new(METHOD_NOT_FOUND, "Method not found")
    }

    /// -32602 Invalid params, with a descriptive message.
    pub fn invalid_params(msg: &str) -> (e: JsonRpcError)
        ensures
            e.code == INVALID_PARAMS,
            e.message@ == msg@,
    {
        Self::new(INVALID_PARAMS, msg)
    }

    /// -32603 Internal error, with a descriptive message.
    pub fn internal_error(msg: &str) -> (e: JsonRpcError)
        ensures
            e.code == INTERNAL_ERROR,
            e.message@ == msg@,
    {
        Self::new(INTERNAL_ERROR, msg)
    }

    /// -32700 Parse error, with the parser's explanation.
    pub fn parse_error(detail: &str) -> (e: JsonRpcError)
        ensures
            e.code == PARSE_ERROR,
            e.message@ == "Parse error: "@ + detail@,
    {
        JsonRpcError { code: PARSE_ERROR, message: cat("Parse error: ", detail) }
    }
}

/// The MCP methods the server answers.
#[derive(Clone, Copy, Debug, PartialEq, Eq, Structural)]
pub enum McpMethod {
    Initialize,
    /// `notifications/initialized`: no answer.
    Initialized,
    ToolsList,
    ToolsCall,
    Ping,
    /// Anything else: -32601.
    Unknown,
}

pub open spec fn spec_mcp_method(m: Seq<char>) -> McpMethod {
    if m == "initialize"@ {
        McpMethod::Initialize
    } else if m == "notifications/initialized"@ {
        McpMethod::Initialized
    } else if m == "tools/list"@ {
        McpMethod::ToolsList
    } else if m == "tools/call"@ {
        McpMethod::ToolsCall
    } else if m == "ping"@ {
        McpMethod::Ping
    } else {
        McpMethod::Unknown
    }
}

/// Which MCP method a JSON-RPC request names.
pub fn mcp_method(method: &str) -> (r: McpMethod)
    ensures
        r == spec_mcp_method(method@),
{
    let m = chars_of(method);
    let m = m.as_slice();
    if eq_lit(m, "initialize") {
        McpMethod::Initialize
    } else if eq_lit(m, "notifications/initialized") {
        McpMethod::Initialized
    } else if eq_lit(m, "tools/list") {
        McpMethod::ToolsList
    } else if eq_lit(m, "tools/call") {
        McpMethod::ToolsCall
    } else if eq_lit(m, "ping") {
        McpMethod::Ping
    } else {
        McpMethod::Unknown
    }
}

/// The protocol version the server speaks.
pub const PROTOCOL_VERSION: &'static str = "2025-03-26";

/// The server's name in `serverInfo`.
pub const SERVER_NAME: &'static str = "caldav-mcp-server";

/// The instructions of the full tool set.
pub const FULL_INSTRUCTIONS: &'static str = "This MCP server provides tools to manage CalDAV calendars and events. Use list_calendars to see available calendars, then create_event, query_events, etc. to manage events.";

/// The terse instructions of simple mode.
pub const SIMPLE_INSTRUCTIONS: &'static str = "Calendar tools: list_events shows events, add_event adds one, delete_event removes one by UID.";

/// The instructions `initialize` returns for a tool mode.
pub fn instructions(tool_mode: &str) -> (s: &'static str)
    ensures
        s@ == (if tool_mode@ == "simple"@ {
            SIMPLE_INSTRUCTIONS@
        } else {
            FULL_INSTRUCTIONS@
        }),
{
    let m = chars_of(tool_mode);
    if eq_lit(m.as_slice(), "simple") {
        SIMPLE_INSTRUCTIONS
    } else {
        FULL_INSTRUCTIONS
    }
}

/// The error of a tools/call without a tool name.
pub fn missing_tool_name() -> (e: JsonRpcError)
    ensures
        e.code == INVALID_PARAMS,
        e.message@ == "Missing 'name' in params"@,
{
    JsonRpcError::invalid_params("Missing 'name' in params")
}

} // verus!
