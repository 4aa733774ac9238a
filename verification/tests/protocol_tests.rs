use serde_json::Value;
use solidmcp::engine::{EngineStep, HandlerCall, McpProtocolEngine};
use solidmcp::handler::ToolDefinition;
use solidmcp::json::Json;
use solidmcp::protocol::McpProtocol;
use solidmcp::protocol_impl::{BuiltinStep, McpProtocolHandlerImpl};

fn proto_json(text: &str) -> Json {
    proto_from_value(&serde_json::from_str::<Value>(text).unwrap())
}

fn proto_from_value(v: &Value) -> Json {
    match v {
        Value::Null => Json::Null,
        Value::Bool(b) => Json::Bool(*b),
        Value::Number(n) => match n.as_i64() {
            Some(i) => Json::Int(i),
            None => Json::Number(n.to_string()),
        },
        Value::String(s) => Json::Str(s.clone()),
        Value::Array(a) => Json::Array(a.iter().map(proto_from_value).collect()),
        Value::Object(o) => Json::Object(o.iter().map(|(k, x)| (k.clone(), proto_from_value(x))).collect()),
    }
}

fn proto_to_value(j: &Json) -> Value {
    match j {
        Json::Null => Value::Null,
        Json::Bool(b) => Value::Bool(*b),
        Json::Int(i) => Value::from(*i),
        Json::Number(t) => serde_json::from_str(t).unwrap(),
        Json::Str(s) => Value::String(s.clone()),
        Json::Array(a) => Value::Array(a.iter().map(proto_to_value).collect()),
        Json::Object(o) => Value::Object(o.iter().map(|(k, x)| (k.clone(), proto_to_value(x))).collect()),
    }
}

fn reply_of(step: BuiltinStep) -> Value {
    match step {
        BuiltinStep::Reply(Ok(j)) => proto_to_value(&j),
        BuiltinStep::Reply(Err(e)) => panic!("unexpected error {:?}", e),
        _ => panic!("expected a reply"),
    }
}

#[test]
fn test_initialize_response() {
    let proto = McpProtocol::new();
    let resp = proto_to_value(&proto.create_initialize_response());
    assert_eq!(resp["protocolVersion"], proto.version());
    assert_eq!(resp["serverInfo"]["name"], proto.server_name());
    assert_eq!(resp["serverInfo"]["version"], proto.server_version());
}

#[test]
fn test_error_response() {
    let proto = McpProtocol::new();
    let err = proto_to_value(&proto.create_error_response(Json::Int(42), -1, "fail"));
    assert_eq!(err["id"], 42);
    assert_eq!(err["error"]["code"], -1);
    assert_eq!(err["error"]["message"], "fail");
}

#[test]
fn test_success_response() {
    let proto = McpProtocol::new();
    let ok = proto_to_value(&proto.create_success_response(Json::Int(7), proto_json(r#"{"foo": 1}"#)));
    assert_eq!(ok["id"], 7);
    assert_eq!(ok["result"]["foo"], 1);
}

#[test]
fn builtin_initialize_negotiates_the_version() {
    let mut h = McpProtocolHandlerImpl::new();
    let m = proto_json(
        r#"{"jsonrpc":"2.0","id":1,"method":"initialize","params":{"protocolVersion":"2025-03-26","clientInfo":{"name":"c"}}}"#,
    );
    let r = reply_of(h.handle_message(&m));
    assert_eq!(r["result"]["protocolVersion"], "2025-03-26");
    assert_eq!(r["result"]["capabilities"]["tools"]["listChanged"], false);
    assert!(h.is_initialized());
}

#[test]
fn builtin_rejects_unsupported_versions() {
    let mut h = McpProtocolHandlerImpl::new();
    let m = proto_json(r#"{"jsonrpc":"2.0","id":2,"method":"initialize","params":{"protocolVersion":"1999-01-01"}}"#);
    let r = reply_of(h.handle_message(&m));
    assert_eq!(r["error"]["code"], -32603);
    assert_eq!(
        r["error"]["message"],
        "Internal error: Unsupported protocol version: 1999-01-01. Supported versions: [\"2025-03-26\", \"2025-06-18\"]"
    );
    assert!(!h.is_initialized());
}

#[test]
fn builtin_tools_need_initialization() {
    let mut h = McpProtocolHandlerImpl::new();
    let m = proto_json(r#"{"jsonrpc":"2.0","id":3,"method":"tools/list"}"#);
    let r = reply_of(h.handle_message(&m));
    assert_eq!(r["error"]["code"], -32002);
    assert_eq!(r["error"]["message"], "Not initialized");
    assert_eq!(r["id"], 3);
}

#[test]
fn builtin_reinitialization_starts_over() {
    let mut h = McpProtocolHandlerImpl::new();
    let first = proto_json(r#"{"jsonrpc":"2.0","id":1,"method":"initialize","params":{"protocolVersion":"2025-03-26"}}"#);
    let _ = h.handle_message(&first);
    let again = proto_json(r#"{"jsonrpc":"2.0","id":2,"method":"initialize","params":{}}"#);
    let r = reply_of(h.handle_message(&again));
    assert_eq!(r["result"]["protocolVersion"], "2025-06-18");
    let list = proto_json(r#"{"jsonrpc":"2.0","id":3,"method":"tools/list"}"#);
    match h.handle_message(&list) {
        BuiltinStep::ListTools { protocol_version, .. } => assert_eq!(protocol_version, None),
        _ => panic!("expected the tool list to be asked for"),
    }
}

#[test]
fn builtin_validation_errors() {
    let mut h = McpProtocolHandlerImpl::new();
    match h.handle_message(&proto_json(r#"{"jsonrpc":"1.0","method":"x"}"#)) {
        BuiltinStep::Reply(Err(e)) => assert_eq!(e.message(), "Invalid parameters: Invalid jsonrpc version: 1.0"),
        _ => panic!("expected an error"),
    }
    let r = reply_of(h.handle_message(&proto_json(r#"{"jsonrpc":"2.0","id":9,"method":"nope"}"#)));
    assert_eq!(r["error"]["code"], -32601);
    assert_eq!(r["error"]["message"], "Method not found: nope");
}

#[test]
fn builtin_tool_errors_are_classified() {
    let h = McpProtocolHandlerImpl::new();
    let r = h.finish_tool_call(Some(Json::Int(1)), "t", Err("Unknown tool: t".to_string())).unwrap();
    let v = proto_to_value(&r);
    assert_eq!(v["error"]["code"], -32601);
    assert_eq!(v["error"]["message"], "Tool not found: t");
    let r = h.finish_tool_call(Some(Json::Int(1)), "t", Err("Wrong type for x".to_string())).unwrap();
    assert_eq!(proto_to_value(&r)["error"]["code"], -32602);
}

#[test]
fn engine_sessions_are_isolated() {
    let mut engine = McpProtocolEngine::new();
    let init = proto_json(r#"{"jsonrpc":"2.0","id":1,"method":"initialize","params":{}}"#);
    let _ = engine.handle_message(&init, Some("a".to_string()));
    let list = proto_json(r#"{"jsonrpc":"2.0","id":2,"method":"tools/list"}"#);
    match engine.handle_message(&list, Some("a".to_string())) {
        EngineStep::Builtin(BuiltinStep::ListTools { .. }) => {}
        _ => panic!("session a is initialized"),
    }
    match engine.handle_message(&list, Some("b".to_string())) {
        EngineStep::Builtin(BuiltinStep::Reply(Ok(j))) => {
            assert_eq!(proto_to_value(&j)["error"]["code"], -32002)
        }
        _ => panic!("session b is not initialized"),
    }
}

#[test]
fn engine_refuses_messages_without_method() {
    let mut engine = McpProtocolEngine::new();
    match engine.handle_message(&proto_json(r#"{"jsonrpc":"2.0","id":1}"#), None) {
        EngineStep::Builtin(BuiltinStep::Reply(Ok(j))) => {
            let v = proto_to_value(&j);
            assert_eq!(v["id"], 1);
            assert_eq!(v["error"]["code"], -32602);
            assert_eq!(v["error"]["message"], "Invalid parameters: Missing method field");
        }
        _ => panic!("expected an error response"),
    }
}

#[test]
fn engine_answers_builtin_errors_with_error_responses() {
    let mut engine = McpProtocolEngine::new();
    match engine.handle_message(&proto_json(r#"{"jsonrpc":"1.0","id":"x","method":"m"}"#), Some("s".to_string())) {
        EngineStep::Builtin(BuiltinStep::Reply(Ok(j))) => {
            let v = proto_to_value(&j);
            assert_eq!(v["id"], "x");
            assert_eq!(v["error"]["code"], -32602);
            assert_eq!(v["error"]["message"], "Invalid parameters: Invalid jsonrpc version: 1.0");
        }
        _ => panic!("expected an error response"),
    }
}

#[test]
fn engine_answers_handler_errors_with_internal_error_responses() {
    let mut engine = McpProtocolEngine::with_handler();
    let call = proto_json(r#"{"jsonrpc":"2.0","id":7,"method":"tools/call","params":{"name":"t","arguments":{}}}"#);
    let pending = match engine.handle_message(&call, Some("s".to_string())) {
        EngineStep::Call { pending, call: HandlerCall::CallTool { .. } } => pending,
        _ => panic!("expected a tool call"),
    };
    let v = proto_to_value(&engine.finish_call_tool(pending, Err("boom".to_string())).unwrap());
    assert_eq!(v["jsonrpc"], "2.0");
    assert_eq!(v["id"], 7);
    assert_eq!(v["error"]["code"], -32603);
    assert_eq!(v["error"]["message"], "Internal error: boom");
}

#[test]
fn engine_routes_to_the_user_handler() {
    let mut engine = McpProtocolEngine::with_handler();
    let init = proto_json(r#"{"jsonrpc":"2.0","id":1,"method":"initialize","params":{"protocolVersion":"2025-03-26"}}"#);
    let (pending, call) = match engine.handle_message(&init, Some("s".to_string())) {
        EngineStep::Call { pending, call } => (pending, call),
        _ => panic!("expected a handler call"),
    };
    assert!(matches!(call, HandlerCall::Initialize { .. }));
    assert_eq!(pending.client_version, Some("2025-03-26".to_string()));
    let reply = engine.finish_initialize(pending, Ok(proto_json(r#"{"ok":true}"#))).unwrap();
    let v = proto_to_value(&reply);
    assert_eq!(v["id"], 1);
    assert_eq!(v["result"]["ok"], true);

    let list = proto_json(r#"{"jsonrpc":"2.0","id":2,"method":"tools/list"}"#);
    let pending = match engine.handle_message(&list, Some("s".to_string())) {
        EngineStep::Call { pending, call: HandlerCall::ListTools } => pending,
        _ => panic!("expected a list call"),
    };
    let tools = vec![ToolDefinition {
        name: "echo".to_string(),
        description: "Echo".to_string(),
        input_schema: proto_json(r#"{"type":"object"}"#),
        output_schema: proto_json(r#"{}"#),
    }];
    let v = proto_to_value(&engine.finish_list_tools(pending, Ok(tools)).unwrap());
    assert_eq!(v["result"]["tools"][0]["name"], "echo");
    assert_eq!(v["result"]["tools"][0]["inputSchema"]["type"], "object");

    let call = proto_json(r#"{"jsonrpc":"2.0","id":3,"method":"tools/call","params":{"name":"echo"}}"#);
    match engine.handle_message(&call, Some("s".to_string())) {
        EngineStep::Builtin(_) => {}
        _ => panic!("a call without arguments falls back to the built-in handler"),
    }

    let failing = proto_json(r#"{"jsonrpc":"2.0","id":4,"method":"resources/list"}"#);
    let pending = match engine.handle_message(&failing, None) {
        EngineStep::Call { pending, .. } => pending,
        _ => panic!("expected a handler call"),
    };
    let v = proto_to_value(&engine.finish_list_resources(pending, Err("disk gone".to_string())).unwrap());
    assert_eq!(v["id"], 4);
    assert_eq!(v["error"]["message"], "Internal error: disk gone");
}

#[test]
fn replies_echo_the_request_id() {
    let mut h = McpProtocolHandlerImpl::new();
    let r = reply_of(h.handle_message(&proto_json(r#"{"jsonrpc":"2.0","id":"abc","method":"tools/call"}"#)));
    assert_eq!(r["id"], "abc");
    let r = reply_of(h.handle_message(&proto_json(
        r#"{"jsonrpc":"2.0","id":[1],"method":"initialize","params":{}}"#,
    )));
    assert_eq!(r["id"], serde_json::from_str::<Value>("[1]").unwrap());
}

#[test]
fn notifications_are_acknowledged() {
    let mut h = McpProtocolHandlerImpl::new();
    let r = reply_of(h.handle_message(&proto_json(r#"{"jsonrpc":"2.0","method":"notifications/initialized"}"#)));
    assert_eq!(r, serde_json::from_str::<Value>("{}").unwrap());
    let r = reply_of(h.handle_message(&proto_json(r#"{"jsonrpc":"2.0","id":8,"method":"notifications/cancel"}"#)));
    assert_eq!(r["id"], 8);
    assert_eq!(r["result"], serde_json::from_str::<Value>("{}").unwrap());
}

#[test]
fn engine_user_initialize_starts_the_session_over() {
    let mut engine = McpProtocolEngine::with_handler();
    let init = proto_json(r#"{"jsonrpc":"2.0","id":1,"method":"initialize","params":{"protocolVersion":"2025-03-26"}}"#);
    let pending = match engine.handle_message(&init, None) {
        EngineStep::Call { pending, .. } => pending,
        _ => panic!("expected a handler call"),
    };
    assert_eq!(pending.session, "default");
    engine.finish_initialize(pending, Ok(Json::Null)).unwrap();
    let again = proto_json(r#"{"jsonrpc":"2.0","id":2,"method":"initialize","params":{}}"#);
    let pending = match engine.handle_message(&again, None) {
        EngineStep::Call { pending, .. } => pending,
        _ => panic!("expected a handler call"),
    };
    assert_eq!(pending.client_version, None);
    let v = proto_to_value(&engine.finish_initialize(pending, Err("refused".to_string())).unwrap());
    assert_eq!(v["error"]["code"], -32603);
    // The session was reset by the second initialize, so the built-in handler now
    // refuses an unknown notification method with an error and the id.
    let ping = proto_json(r#"{"jsonrpc":"2.0","id":3,"method":"ping"}"#);
    match engine.handle_message(&ping, None) {
        EngineStep::Builtin(BuiltinStep::Reply(Ok(j))) => {
            let v = proto_to_value(&j);
            assert_eq!(v["id"], 3);
            assert_eq!(v["error"]["code"], -32601);
        }
        _ => panic!("expected a built-in reply"),
    }
}
