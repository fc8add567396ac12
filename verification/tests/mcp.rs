use caldav_server::mcp::auth::bearer_token;
use caldav_server::mcp::jsonrpc::{
    instructions, mcp_method, missing_tool_name, JsonRpcError, McpMethod, FULL_INSTRUCTIONS,
    INTERNAL_ERROR, INVALID_PARAMS, METHOD_NOT_FOUND, PARSE_ERROR,
};
use caldav_server::mcp::session::SessionManager;
use caldav_server::mcp::tools::all_tools;
use caldav_server::mcp::tools::args::{tool_request, ToolArgs, ToolRequest};
use caldav_server::db::models::Permission;

fn args(strings: &[(&str, &str)], numbers: &[(&str, u64)]) -> ToolArgs {
    ToolArgs {
        strings: strings.iter().map(|(k, v)| (k.to_string(), v.to_string())).collect(),
        numbers: numbers.iter().map(|(k, v)| (k.to_string(), *v)).collect(),
    }
}

#[test]
fn test_create_and_get_session() {
    let mut mgr = SessionManager::new();
    let sid = mgr.create_session("user-123");
    assert_eq!(mgr.get_user_id(&sid), Some("user-123".to_string()));
}

#[test]
fn test_remove_session() {
    let mut mgr = SessionManager::new();
    let sid = mgr.create_session("user-123");
    mgr.remove_session(&sid);
    assert_eq!(mgr.get_user_id(&sid), None);
}

#[test]
fn test_unknown_session() {
    let mgr = SessionManager::new();
    assert_eq!(mgr.get_user_id("nonexistent"), None);
}

#[test]
fn sessions_are_independent() {
    let mut mgr = SessionManager::new();
    let a = mgr.create_session("alice");
    let b = mgr.create_session("bob");
    assert_ne!(a, b);
    assert_eq!(a.len(), 36);
    mgr.remove_session(&a);
    assert_eq!(mgr.get_user_id(&a), None);
    assert_eq!(mgr.get_user_id(&b).as_deref(), Some("bob"));
}

#[test]
fn tool_catalogue_by_mode() {
    let full = all_tools("full");
    assert_eq!(full.len(), 12);
    let names: Vec<&str> = full.iter().map(|t| t.name.as_str()).collect();
    assert!(names.contains(&"list_calendars"));
    assert!(names.contains(&"create_event"));
    assert!(names.contains(&"share_calendar"));
    let simple = all_tools("simple");
    let names: Vec<&str> = simple.iter().map(|t| t.name.as_str()).collect();
    assert_eq!(names, vec!["add_event", "delete_event", "list_events"]);
    for t in full.iter().chain(simple.iter()) {
        let schema: serde_json::Value = serde_json::from_str(&t.input_schema).unwrap();
        assert_eq!(schema["type"], "object");
    }
}

#[test]
fn simple_instructions_are_terse() {
    let s = instructions("simple");
    assert!(s.len() < 200);
    assert!(s.contains("list_events"));
    assert!(s.contains("add_event"));
    assert_eq!(instructions("full"), FULL_INSTRUCTIONS);
}

#[test]
fn jsonrpc_errors() {
    let e = JsonRpcError::method_not_found();
    assert_eq!((e.code, e.message.as_str()), (-32601, "Method not found"));
    assert_eq!(JsonRpcError::invalid_params("bad").code, INVALID_PARAMS);
    assert_eq!(JsonRpcError::internal_error("x").code, INTERNAL_ERROR);
    let p = JsonRpcError::parse_error("eof");
    assert_eq!((p.code, p.message.as_str()), (PARSE_ERROR, "Parse error: eof"));
    assert_eq!(METHOD_NOT_FOUND, -32601);
    assert_eq!(missing_tool_name().message, "Missing 'name' in params");
}

#[test]
fn method_routing() {
    assert_eq!(mcp_method("initialize"), McpMethod::Initialize);
    assert_eq!(mcp_method("notifications/initialized"), McpMethod::Initialized);
    assert_eq!(mcp_method("tools/list"), McpMethod::ToolsList);
    assert_eq!(mcp_method("tools/call"), McpMethod::ToolsCall);
    assert_eq!(mcp_method("ping"), McpMethod::Ping);
    assert_eq!(mcp_method("nonexistent/method"), McpMethod::Unknown);
}

#[test]
fn bearer_header() {
    assert_eq!(bearer_token(Some("Bearer abc")).unwrap(), "abc");
    assert_eq!(bearer_token(None).unwrap_err(), "Missing Authorization header");
    assert_eq!(
        bearer_token(Some("Basic abc")).unwrap_err(),
        "Invalid authorization scheme, expected Bearer"
    );
}

#[test]
fn full_mode_requests() {
    match tool_request("full", "create_calendar", &args(&[("name", "Work")], &[])).unwrap() {
        ToolRequest::CreateCalendar { name, description, color, timezone } => {
            assert_eq!((name.as_str(), description.as_str(), color.as_str(), timezone.as_str()), ("Work", "", "#0E61B9", "UTC"));
        }
        _ => panic!("wrong request"),
    }
    assert_eq!(tool_request("full", "create_calendar", &args(&[], &[])).unwrap_err(), "Missing name");
    assert_eq!(
        tool_request("full", "create_event", &args(&[("calendar_id", "c"), ("start", "s")], &[])).unwrap_err(),
        "Missing title"
    );
    match tool_request("full", "query_events", &args(&[("calendar_id", "c")], &[])).unwrap() {
        ToolRequest::QueryEvents { limit, start, .. } => {
            assert_eq!(limit, 50);
            assert_eq!(start, None);
        }
        _ => panic!("wrong request"),
    }
    match tool_request("full", "share_calendar", &args(&[("calendar_id", "c"), ("username", "bob"), ("permission", "read")], &[])).unwrap() {
        ToolRequest::ShareCalendar { permission, .. } => assert_eq!(permission, Permission::Read),
        _ => panic!("wrong request"),
    }
    assert_eq!(
        tool_request("full", "share_calendar", &args(&[("calendar_id", "c"), ("username", "bob"), ("permission", "admin")], &[])).unwrap_err(),
        "Invalid permission value"
    );
    assert_eq!(tool_request("full", "nonexistent_tool", &args(&[], &[])).unwrap_err(), "Unknown tool: nonexistent_tool");
    assert_eq!(tool_request("full", "add_event", &args(&[], &[])).unwrap_err(), "Unknown tool: add_event");
}

#[test]
fn simple_mode_requests() {
    match tool_request("simple", "list_events", &args(&[("start", "a"), ("end", "b")], &[("limit", 5)])).unwrap() {
        ToolRequest::ListEvents { start, end, limit } => {
            assert_eq!((start.as_deref(), end.as_deref(), limit), (Some("a"), Some("b"), 5));
        }
        _ => panic!("wrong request"),
    }
    assert_eq!(tool_request("simple", "delete_event", &args(&[], &[])).unwrap_err(), "Missing event_uid");
    assert_eq!(tool_request("simple", "create_calendar", &args(&[("name", "x")], &[])).unwrap_err(), "Unknown tool: create_calendar");
    match tool_request("simple", "add_event", &args(&[("title", "T"), ("start", "s"), ("end", "e"), ("timezone", "UTC")], &[])).unwrap() {
        ToolRequest::AddEvent { timezone, description, .. } => {
            assert_eq!(timezone.as_deref(), Some("UTC"));
            assert_eq!(description, None);
        }
        _ => panic!("wrong request"),
    }
}
