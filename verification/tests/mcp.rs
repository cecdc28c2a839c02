use deepomni::mcp::{
    check_response_line, initialize_request, list_tools_request, response_parse_error, McpError,
    McpManager, McpServerStatus, McpToolDef, McpToolHandler,
};
use deepomni::protocol::id::ToolCallId;
use deepomni::protocol::tool::{ToolInvocation, ToolOutput, ToolPayload, ToolSpec};
use serde_json::Value;

fn value(text: &str) -> Value {
    serde_json::from_str(text).unwrap()
}

#[test]
fn test_mcp_manager_new() {
    let manager = McpManager::new();
    assert!(manager.server_names().is_empty());
}

#[test]
fn test_add_server() {
    let mut manager = McpManager::new();
    manager.add_server("test-server", "echo", &vec!["hello".into()]);
    assert_eq!(
        manager.server_status("test-server").unwrap(),
        &McpServerStatus::Disconnected
    );
}

#[test]
fn test_server_not_found() {
    let mut manager = McpManager::new();
    let result = manager.begin_start("nonexistent");
    assert!(result.is_err());
}

#[test]
fn test_mcp_manager_server_not_found() {
    let manager = McpManager::new();
    assert!(manager.server_status("nonexistent").is_none());
}

#[test]
fn test_mcp_manager_add_server() {
    let mut manager = McpManager::new();
    manager.add_server("test-srv", "echo", &vec!["hello".into()]);
    let status = manager.server_status("test-srv");
    assert!(status.is_some());
    assert_eq!(status.unwrap(), &McpServerStatus::Disconnected);
}

#[test]
fn a_started_server_offers_its_tools_under_its_name() {
    let mut manager = McpManager::new();
    manager.add_server("srv", "cmd", &vec!["-x".into()]);
    let launch = manager.begin_start("srv").unwrap();
    assert_eq!(launch.command, "cmd");
    assert_eq!(launch.args, vec!["-x".to_string()]);
    assert_eq!(manager.server_status("srv").unwrap(), &McpServerStatus::Connecting);
    let tools = manager
        .finish_start(
            "srv",
            Ok(Some(vec![McpToolDef {
                name: "echo".into(),
                description: Some("Echo back the input".into()),
                input_schema: value(r#"{"type":"object"}"#),
            }])),
        )
        .unwrap();
    assert_eq!(tools.len(), 1);
    let ToolSpec::Function(details) = &tools[0];
    assert_eq!(details.name, "mcp.srv.echo");
    assert_eq!(details.description, "Echo back the input");
    assert_eq!(details.parameters, value(r#"{"type":"object"}"#));
    assert_eq!(manager.server_status("srv").unwrap(), &McpServerStatus::Ready);
    assert_eq!(manager.list_all_tools().len(), 1);
}

#[test]
fn only_ready_servers_offer_their_tools() {
    let mut manager = McpManager::new();
    for name in ["a", "b", "c"] {
        manager.add_server(name, "cmd", &Vec::new());
        manager.begin_start(name).unwrap();
    }
    for name in ["c", "a"] {
        let tool = McpToolDef {
            name: "echo".into(),
            description: None,
            input_schema: value("{}"),
        };
        manager.finish_start(name, Ok(Some(vec![tool]))).unwrap();
    }
    let names: Vec<String> = manager
        .list_all_tools()
        .into_iter()
        .map(|ToolSpec::Function(details)| details.name)
        .collect();
    assert_eq!(names, vec!["mcp.a.echo".to_string(), "mcp.c.echo".to_string()]);
    assert_eq!(manager.server_names(), vec!["a".to_string(), "b".into(), "c".into()]);
}

#[test]
fn a_list_that_cannot_be_read_is_an_error() {
    let mut manager = McpManager::new();
    manager.add_server("srv", "cmd", &Vec::new());
    manager.begin_start("srv").unwrap();
    let failed = manager.finish_start("srv", Err("no list".into()));
    assert!(matches!(
        &failed,
        Err(McpError::Protocol { server, message })
            if server == "srv" && message == "failed to parse tools/list: no list"
    ));
    assert_eq!(manager.server_status("srv").unwrap(), &McpServerStatus::Connecting);
    assert!(manager.list_all_tools().is_empty());
    assert!(matches!(
        manager.finish_start("none", Ok(None)),
        Err(McpError::ServerNotFound(name)) if name == "none"
    ));
    assert!(manager.finish_start("srv", Ok(None)).unwrap().is_empty());
}

#[test]
fn requests_carry_their_method() {
    let request = initialize_request();
    assert_eq!(request.jsonrpc, "2.0");
    assert_eq!(request.method, "initialize");
    let params = request.params.unwrap();
    assert_eq!(params["clientInfo"]["name"], "deepomni");
    let list = list_tools_request();
    assert_eq!(list.method, "tools/list");
    assert_ne!(list.id, request.id);
}

#[test]
fn an_empty_line_is_no_response() {
    assert!(check_response_line("{}").is_ok());
    assert!(matches!(check_response_line(""), Err(McpError::Protocol { .. })));
    assert!(response_parse_error("bad json").to_string().contains("bad json"));
}

#[test]
fn a_bridged_tool_tells_where_its_call_went() {
    let handler = McpToolHandler { server_name: "srv".into(), tool_name: "echo".into() };
    assert_eq!(handler.name(), "echo");
    assert!(handler.is_mutating());
    let output = handler.handle(&ToolInvocation {
        call_id: ToolCallId::from_string("c"),
        tool_name: "echo".into(),
        payload: ToolPayload::Function { arguments: "{\"message\":\"hi\"}".into() },
    });
    match output {
        ToolOutput::Mcp { result } => {
            assert_eq!(result["server"], "srv");
            assert_eq!(result["tool"], "echo");
            assert_eq!(result["arguments"], "{\"message\":\"hi\"}");
            assert_eq!(result["status"], "dispatched");
        }
        other => panic!("unexpected output: {other:?}"),
    }
}

#[test]
fn mcp_errors_have_their_texts() {
    assert_eq!(McpError::ServerNotFound("s".into()).to_string(), "MCP server not found: s");
    assert!(McpError::StartFailed { server: "s".into(), reason: "r".into() }
        .to_string()
        .contains("r"));
    assert!(McpError::Io("broken pipe".into()).to_string().contains("broken pipe"));
}
