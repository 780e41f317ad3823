// Helper function to create a valid JSON-RPC request
fn create_json_rpc_request(
    method: &str,
    params: Option<serde_json::Value>,
    id: Option<serde_json::Value>,
) -> serde_json::Value {
    let mut request: serde_json::Value = serde_json::from_str("{}").unwrap();
    request["jsonrpc"] = serde_json::Value::String("2.0".to_string());
    request["method"] = serde_json::Value::String(method.to_string());

    if let Some(p) = params {
        request["params"] = p;
    }

    if let Some(i) = id {
        request["id"] = i;
    }

    request
}

#[test]
fn test_initialize_request() {
    let request = create_json_rpc_request(
        "initialize",
        Some(
            serde_json::from_str(
                r#"{
                    "protocol_version": "2024-11-05",
                    "capabilities": {},
                    "client_info": {
                        "name": "test-client",
                        "version": "1.0.0"
                    }
                }"#,
            )
            .unwrap(),
        ),
        Some(serde_json::from_str("1").unwrap()),
    );

    assert_eq!(request["jsonrpc"], "2.0");
    assert_eq!(request["method"], "initialize");
    assert_eq!(request["id"], 1);
}

#[test]
fn test_tools_list_request() {
    let request = create_json_rpc_request("tools/list", None, Some(serde_json::from_str("2").unwrap()));

    assert_eq!(request["jsonrpc"], "2.0");
    assert_eq!(request["method"], "tools/list");
    assert_eq!(request["id"], 2);
}

#[test]
fn test_tools_call_request() {
    let request = create_json_rpc_request(
        "tools/call",
        Some(
            serde_json::from_str(
                r#"{
                    "name": "add",
                    "arguments": {
                        "a": 5,
                        "b": 3
                    }
                }"#,
            )
            .unwrap(),
        ),
        Some(serde_json::from_str("3").unwrap()),
    );

    assert_eq!(request["jsonrpc"], "2.0");
    assert_eq!(request["method"], "tools/call");
    assert_eq!(request["params"]["name"], "add");
    assert_eq!(request["params"]["arguments"]["a"], 5);
    assert_eq!(request["params"]["arguments"]["b"], 3);
}

#[test]
fn test_calculate_tool_call() {
    let request = create_json_rpc_request(
        "tools/call",
        Some(
            serde_json::from_str(
                r#"{
                    "name": "calculate",
                    "arguments": {
                        "operation": "multiply",
                        "a": 4,
                        "b": 7
                    }
                }"#,
            )
            .unwrap(),
        ),
        Some(serde_json::from_str("4").unwrap()),
    );

    assert_eq!(request["params"]["name"], "calculate");
    assert_eq!(request["params"]["arguments"]["operation"], "multiply");
}

#[test]
fn test_notification_without_id() {
    let notification = create_json_rpc_request(
        "notification/test",
        Some(serde_json::from_str(r#"{"data": "test"}"#).unwrap()),
        None,
    );

    assert_eq!(notification["jsonrpc"], "2.0");
    assert_eq!(notification["method"], "notification/test");
    assert!(!notification.as_object().unwrap().contains_key("id"));
}

#[test]
fn test_streaming_framing_matches_plain() {
    let mut registry = mcp_server::tools::ToolRegistry::new();
    mcp_server::tools::register_default_tools(&mut registry);
    let body = r#"{"jsonrpc":"2.0","method":"initialize","id":1}"#;

    let plain = match mcp_server::server::handle_message(body, &registry, "application/json") {
        mcp_server::server::MessageOutcome::Reply(s) => s,
        _ => panic!("expected a reply"),
    };
    let streamed = match mcp_server::server::handle_message(body, &registry, "text/event-stream") {
        mcp_server::server::MessageOutcome::Reply(s) => s,
        _ => panic!("expected a reply"),
    };

    assert_eq!(streamed, format!("data: {}\n\n", plain));
    assert!(!plain.starts_with("data: "));
}

#[test]
fn test_accept_header_negotiation() {
    assert!(mcp_server::transport::accepts_streaming("text/event-stream"));
    assert!(mcp_server::transport::accepts_streaming("application/json, text/event-stream"));
    assert!(!mcp_server::transport::accepts_streaming("application/json"));
    assert!(!mcp_server::transport::accepts_streaming(""));
}

#[test]
fn test_endpoint_event() {
    assert_eq!(
        mcp_server::transport::endpoint_event(),
        "event: endpoint\ndata: {\"endpoint\": \"/messages\"}\n\n"
    );
}

#[test]
fn test_info_payload() {
    let info = mcp_server::server::info_text();
    let parsed: serde_json::Value = serde_json::from_str(&info).unwrap();
    let expected: serde_json::Value = serde_json::from_str(
        r#"{
            "server": "{{server_name}}",
            "version": "1.0.0",
            "protocol_version": "2024-11-05",
            "transport": ["streamable_http", "legacy_sse"],
            "endpoints": {
                "mcp": "/mcp",
                "sse": "/sse",
                "messages": "/messages",
                "legacy": {
                    "add": "/mcp/add",
                    "calculate": "/mcp/calculate"
                }
            }
        }"#,
    )
    .unwrap();
    assert_eq!(parsed, expected);
}
