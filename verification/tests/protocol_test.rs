use mcp_server::JsonValue;
use mcp_server::dispatch::{DispatchOutcome, dispatch, tool_reply};
use mcp_server::envelope::{JsonRpcRequest, decode_request, encode_response};
use mcp_server::parse::parse_json;
use mcp_server::server::{MessageOutcome, handle_message, finish_tool_call, legacy_response_text};
use mcp_server::text::json_to_string;
use mcp_server::tools::{ContentItem, Tool, ToolRegistry, ToolsCallResult, register_default_tools};

fn default_registry() -> ToolRegistry {
    let mut registry = ToolRegistry::new();
    register_default_tools(&mut registry);
    registry
}

fn parse(text: &str) -> JsonValue {
    parse_json(text).unwrap()
}

fn request(method: &str, params: Option<&str>, id: Option<&str>) -> JsonRpcRequest {
    JsonRpcRequest {
        jsonrpc: "2.0".to_string(),
        method: method.to_string(),
        params: params.map(parse),
        id: id.map(parse),
    }
}

fn reply_of(outcome: DispatchOutcome) -> mcp_server::envelope::JsonRpcResponse {
    match outcome {
        DispatchOutcome::Reply(resp) => resp,
        DispatchOutcome::Invoke { .. } => panic!("expected a reply"),
    }
}

#[test]
fn test_response_id_preserves_number() {
    let registry = default_registry();
    let resp = reply_of(dispatch(request("initialize", None, Some("42")), &registry));
    match resp.id {
        Some(JsonValue::Num(ref t)) => assert_eq!(t, "42"),
        _ => panic!("expected the numeric id back"),
    }
    let encoded = encode_response(resp);
    assert!(encoded.ends_with(",\"id\":42}"));
}

#[test]
fn test_response_id_preserves_string() {
    let registry = default_registry();
    let resp = reply_of(dispatch(request("tools/list", None, Some("\"abc\"")), &registry));
    match resp.id {
        Some(JsonValue::Str(ref s)) => assert_eq!(s, "abc"),
        _ => panic!("expected the string id back"),
    }
    let encoded = encode_response(resp);
    assert!(encoded.ends_with(",\"id\":\"abc\"}"));
}

#[test]
fn test_notification_produces_no_body() {
    let registry = default_registry();
    let body = r#"{"jsonrpc":"2.0","method":"no/such/method","params":{"data":1}}"#;
    assert!(matches!(
        handle_message(body, &registry, "application/json"),
        MessageOutcome::NoReply
    ));
    // An id of null counts as absent as well.
    let body = r#"{"jsonrpc":"2.0","method":"initialize","id":null}"#;
    assert!(matches!(
        handle_message(body, &registry, "application/json"),
        MessageOutcome::NoReply
    ));
}

#[test]
fn test_tools_list_keeps_registration_order() {
    let mut registry = ToolRegistry::new();
    registry.register_tool(Tool {
        name: "A".to_string(),
        description: None,
        input_schema: JsonValue::Null,
    });
    registry.register_tool(Tool {
        name: "B".to_string(),
        description: None,
        input_schema: JsonValue::Null,
    });
    let resp = reply_of(dispatch(request("tools/list", None, Some("1")), &registry));
    let listing = resp.result.expect("expected a result");
    let tools = match listing.get_field("tools") {
        Some(JsonValue::Arr(items)) => items,
        _ => panic!("expected a tools array"),
    };
    let names: Vec<&str> = tools
        .iter()
        .map(|t| match t.get_field("name") {
            Some(JsonValue::Str(s)) => s.as_str(),
            _ => panic!("expected a name"),
        })
        .collect();
    assert_eq!(names, vec!["A", "B"]);
}

#[test]
fn test_unknown_tool_is_internal_error() {
    let registry = default_registry();
    let resp = reply_of(dispatch(
        request("tools/call", Some(r#"{"name":"nonexistent"}"#), Some("7")),
        &registry,
    ));
    assert!(resp.result.is_none());
    let error = resp.error.expect("expected a protocol error");
    assert_eq!(error.code, -32603);
    assert_eq!(error.message, "Internal error: Unknown tool: nonexistent");
    assert!(error.message.contains("nonexistent"));
}

#[test]
fn test_missing_params_is_invalid_params_error() {
    let registry = default_registry();
    let resp = reply_of(dispatch(request("tools/call", None, Some("8")), &registry));
    let error = resp.error.expect("expected a protocol error");
    assert_eq!(error.code, -32602);
    assert_eq!(error.message, "Missing params");
}

#[test]
fn test_empty_params_is_invalid_params_error() {
    let registry = default_registry();
    let resp = reply_of(dispatch(request("tools/call", Some("{}"), Some("9")), &registry));
    let error = resp.error.expect("expected a protocol error");
    assert_eq!(error.code, -32602);
    assert_eq!(error.message, "Invalid params");
}

#[test]
fn test_method_not_found() {
    let registry = default_registry();
    let resp = reply_of(dispatch(request("prompts/list", None, Some("10")), &registry));
    let error = resp.error.expect("expected a protocol error");
    assert_eq!(error.code, -32601);
    assert_eq!(error.message, "Method not found");
}

#[test]
fn test_domain_failure_travels_as_success() {
    // A tool reporting a domain failure, the way the calculator reports a
    // zero divisor, still comes back in a success envelope.
    let outcome = Ok(ToolsCallResult {
        content: vec![ContentItem {
            content_type: "text".to_string(),
            text: "Cannot divide by zero".to_string(),
        }],
        is_error: Some(true),
    });
    let resp = tool_reply(Some(parse("11")), outcome);
    assert!(resp.error.is_none());
    let encoded = encode_response(resp);
    assert_eq!(
        encoded,
        "{\"jsonrpc\":\"2.0\",\"result\":{\"content\":[{\"type\":\"text\",\
         \"text\":\"Cannot divide by zero\"}],\"is_error\":true},\"id\":11}"
    );
}

#[test]
fn test_handler_fault_is_internal_error() {
    let resp = tool_reply(Some(parse("12")), Err("handler exploded".to_string()));
    assert!(resp.result.is_none());
    let error = resp.error.expect("expected a protocol error");
    assert_eq!(error.code, -32603);
    assert_eq!(error.message, "Internal error: handler exploded");
}

#[test]
fn test_initialize_is_idempotent() {
    let registry = default_registry();
    let body_plain = r#"{"jsonrpc":"2.0","method":"initialize","id":1}"#;
    let body_params =
        r#"{"jsonrpc":"2.0","method":"initialize","params":{"client_info":{"name":"x"}},"id":1}"#;
    let first = match handle_message(body_plain, &registry, "") {
        MessageOutcome::Reply(s) => s,
        _ => panic!("expected a reply"),
    };
    let second = match handle_message(body_params, &registry, "") {
        MessageOutcome::Reply(s) => s,
        _ => panic!("expected a reply"),
    };
    assert_eq!(first, second);
    assert_eq!(
        first,
        "{\"jsonrpc\":\"2.0\",\"result\":{\"protocol_version\":\"2024-11-05\",\
         \"capabilities\":{\"experimental\":null,\"logging\":null,\"prompts\":null,\
         \"resources\":null,\"tools\":{\"list_changed\":false}},\
         \"server_info\":{\"name\":\"{{server_name}}\",\"version\":\"1.0.0\"}},\"id\":1}"
    );
}

#[test]
fn test_tools_call_invocation_round_trip() {
    let registry = default_registry();
    let body = r#"{"jsonrpc":"2.0","method":"tools/call","params":{"name":"add","arguments":{"a":5,"b":3}},"id":3}"#;
    let (name, arguments, id) = match handle_message(body, &registry, "application/json") {
        MessageOutcome::NeedsTool { name, arguments, id } => (name, arguments, id),
        _ => panic!("expected an invocation"),
    };
    assert_eq!(name, "add");
    let args = arguments.expect("expected arguments");
    assert!(matches!(args.get_field("a"), Some(JsonValue::Num(t)) if t == "5"));
    // The host performs the tool's own work; the library wraps its outcome.
    let outcome = Ok(ToolsCallResult {
        content: vec![ContentItem { content_type: "text".to_string(), text: "8".to_string() }],
        is_error: Some(false),
    });
    let framed = finish_tool_call(id, outcome, "application/json");
    assert_eq!(
        framed,
        "{\"jsonrpc\":\"2.0\",\"result\":{\"content\":[{\"type\":\"text\",\"text\":\"8\"}],\
         \"is_error\":false},\"id\":3}"
    );
}

#[test]
fn test_malformed_body_is_transport_failure() {
    let registry = default_registry();
    match handle_message("this is not json", &registry, "") {
        MessageOutcome::Invalid(m) => assert!(m.starts_with("Invalid JSON-RPC request: ")),
        _ => panic!("expected a transport-level failure"),
    }
    // Valid JSON that is no envelope fails the same way.
    match handle_message(r#"{"id":1}"#, &registry, "") {
        MessageOutcome::Invalid(m) => {
            assert_eq!(m, "Invalid JSON-RPC request: invalid envelope")
        },
        _ => panic!("expected a transport-level failure"),
    }
}

#[test]
fn test_encoder_escapes_like_the_wire_format() {
    let value = JsonValue::Str("a\"b\\c\nd\u{1}e".to_string());
    assert_eq!(json_to_string(&value), "\"a\\\"b\\\\c\\nd\\u0001e\"");
    let empty_obj = JsonValue::Obj(Vec::new());
    assert_eq!(json_to_string(&empty_obj), "{}");
    let empty_arr = JsonValue::Arr(Vec::new());
    assert_eq!(json_to_string(&empty_arr), "[]");
}

#[test]
fn test_parse_and_encode_round_trip() {
    let text = r#"{"a":[1,2.5,true,null,"x"],"b":{"nested":"\n"}}"#;
    let value = parse(text);
    assert_eq!(json_to_string(&value), text);
    assert!(parse_json("not json").is_err());
}

#[test]
fn test_decode_request_reads_envelope_fields() {
    let value = parse(r#"{"jsonrpc":"2.0","method":"tools/list","id":2,"extra":true}"#);
    let req = decode_request(&value).expect("expected an envelope");
    assert_eq!(req.jsonrpc, "2.0");
    assert_eq!(req.method, "tools/list");
    assert!(req.params.is_none());
    assert!(matches!(req.id, Some(JsonValue::Num(ref t)) if t == "2"));
    // A non-string method is no envelope.
    let bad = parse(r#"{"jsonrpc":"2.0","method":3,"id":2}"#);
    assert!(decode_request(&bad).is_none());
}

#[test]
fn test_legacy_response_wraps_bare_content() {
    let content = vec![ContentItem { content_type: "text".to_string(), text: "8".to_string() }];
    assert_eq!(
        legacy_response_text(&content),
        "{\"content\":[{\"type\":\"text\",\"text\":\"8\"}]}"
    );
}

#[test]
fn test_finish_tool_call_streams_when_asked() {
    let outcome = Err("boom".to_string());
    let plain = finish_tool_call(Some(parse("1")), outcome, "application/json");
    let outcome = Err("boom".to_string());
    let streamed = finish_tool_call(Some(parse("1")), outcome, "text/event-stream");
    assert_eq!(streamed, format!("data: {}\n\n", plain));
    assert_eq!(
        plain,
        "{\"jsonrpc\":\"2.0\",\"error\":{\"code\":-32603,\"message\":\
         \"Internal error: boom\"},\"id\":1}"
    );
}

#[test]
fn test_non_ascii_text_passes_through() {
    let text = "{\"greeting\":\"gr\u{00fc}\u{00df} dich \u{2603}\"}";
    let value = parse(text);
    assert_eq!(json_to_string(&value), text);
}

#[test]
fn test_default_tools_listing() {
    let registry = default_registry();
    let resp = reply_of(dispatch(request("tools/list", None, Some("5")), &registry));
    let encoded = encode_response(resp);
    let parsed: serde_json::Value = serde_json::from_str(&encoded).unwrap();
    let expected: serde_json::Value = serde_json::from_str(
        r#"{
            "jsonrpc": "2.0",
            "result": {
                "tools": [
                    {
                        "name": "add",
                        "description": "Add two numbers",
                        "input_schema": {
                            "type": "object",
                            "properties": {
                                "a": {"type": "number"},
                                "b": {"type": "number"}
                            },
                            "required": ["a", "b"]
                        }
                    },
                    {
                        "name": "calculate",
                        "description": "Perform arithmetic operations",
                        "input_schema": {
                            "type": "object",
                            "properties": {
                                "operation": {
                                    "type": "string",
                                    "enum": ["add", "subtract", "multiply", "divide"]
                                },
                                "a": {"type": "number"},
                                "b": {"type": "number"}
                            },
                            "required": ["operation", "a", "b"]
                        }
                    }
                ]
            },
            "id": 5
        }"#,
    )
    .unwrap();
    assert_eq!(parsed, expected);
}
