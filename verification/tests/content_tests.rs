use serde_json::Value;
use solidmcp::content_types::{McpContent, McpResponse, ToMcpResponse};
use solidmcp::handlers::{HandlersStep, McpHandlers};
use solidmcp::health::HealthChecker;
use solidmcp::json::Json;
use solidmcp::limits::ResourceLimits;
use solidmcp::logging::{
    fmt_mcp_server_ready, fmt_mcp_server_shutdown, fmt_mcp_server_startup, McpConnectionId, McpDebugLogger,
    RequestIdGenerator,
};
use solidmcp::response::{ToolContent, ToolResponse, TypedResponse};

fn content_json(text: &str) -> Json {
    content_from_value(&serde_json::from_str::<Value>(text).unwrap())
}

fn content_from_value(v: &Value) -> Json {
    match v {
        Value::Null => Json::Null,
        Value::Bool(b) => Json::Bool(*b),
        Value::Number(n) => match n.as_i64() {
            Some(i) => Json::Int(i),
            None => Json::Number(n.to_string()),
        },
        Value::String(s) => Json::Str(s.clone()),
        Value::Array(a) => Json::Array(a.iter().map(content_from_value).collect()),
        Value::Object(o) => Json::Object(o.iter().map(|(k, x)| (k.clone(), content_from_value(x))).collect()),
    }
}

fn content_to_value(j: &Json) -> Value {
    match j {
        Json::Null => Value::Null,
        Json::Bool(b) => Value::Bool(*b),
        Json::Int(i) => Value::from(*i),
        Json::Number(t) => serde_json::from_str(t).unwrap(),
        Json::Str(s) => Value::String(s.clone()),
        Json::Array(a) => Value::Array(a.iter().map(content_to_value).collect()),
        Json::Object(o) => Value::Object(o.iter().map(|(k, x)| (k.clone(), content_to_value(x))).collect()),
    }
}

#[test]
fn test_mcp_content_text() {
    let content = McpContent::text("Hello, world!".to_string());
    let json = content_to_value(&content.to_json());
    assert_eq!(json["type"], "text");
    assert_eq!(json["text"], "Hello, world!");
}

#[test]
fn test_mcp_content_image() {
    let content = McpContent::image("base64data".to_string(), Some("image/png".to_string()));
    let json = content_to_value(&content.to_json());
    assert_eq!(json["type"], "image");
    assert_eq!(json["data"], "base64data");
    assert_eq!(json["mime_type"], "image/png");
}

#[test]
fn test_mcp_response_text() {
    let response = McpResponse::text("Success".to_string());
    let json = content_to_value(&response.to_json());
    assert_eq!(json["content"][0]["type"], "text");
    assert_eq!(json["content"][0]["text"], "Success");
    assert_eq!(json["is_error"], false);
    assert!(json["data"].is_null());
}

#[test]
fn test_mcp_response_with_data() {
    let data_text = r#"{"results": [1, 2, 3], "total": 3}"#;
    let response = McpResponse::with_text_and_data("Found 3 results".to_string(), content_json(data_text));
    let json = content_to_value(&response.to_json());
    assert_eq!(json["content"][0]["text"], "Found 3 results");
    assert_eq!(json["data"], serde_json::from_str::<Value>(data_text).unwrap());
}

#[test]
fn test_to_mcp_response_string() {
    let response = "Hello".to_mcp_response();
    assert_eq!(response.content.len(), 1);
    assert!(matches!(response.content[0], McpContent::Text { ref text } if text == "Hello"));
}

#[test]
fn test_to_mcp_response_json_with_results() {
    let data = content_json(r#"{"results": [1, 2], "status": "ok"}"#);
    let response = data.to_mcp_response();
    // Should extract meaningful text from JSON
    let content_json = content_to_value(&response.content[0].to_json());
    let text = content_json["text"].as_str().unwrap();
    assert!(text.contains("2 results") || text.contains("ok"));
    assert!(response.data.is_some());
}

#[test]
fn json_summaries_prefer_message_then_status_then_results() {
    let r = content_json(r#"{"message": "hi", "status": "ok"}"#).to_mcp_response();
    assert!(matches!(r.content[0], McpContent::Text { ref text } if text == "hi"));
    let r = content_json(r#"{"results": [1, 2, 3]}"#).to_mcp_response();
    assert!(matches!(r.content[0], McpContent::Text { ref text } if text == "Operation completed with 3 results"));
    let r = content_json(r#"{"x": 1}"#).to_mcp_response();
    assert!(matches!(r.content[0], McpContent::Text { ref text } if text == "Operation completed"));
}

#[test]
fn resource_content_leaves_out_absent_fields() {
    let c = McpContent::resource("file:///a".to_string(), None, Some("body".to_string()));
    let json = content_to_value(&c.to_json());
    assert_eq!(json["type"], "resource");
    assert_eq!(json["text"], "body");
    assert!(json.get("mime_type").is_none());
}

#[test]
fn response_builders_set_error_and_content() {
    let r = McpResponse::error("bad".to_string());
    assert!(r.is_error);
    let r = McpResponse::new(vec![]).with_content(McpContent::text("a".to_string())).as_error();
    assert!(r.is_error);
    assert_eq!(r.content.len(), 1);
    let r = r.with_data(Json::Int(3));
    assert_eq!(content_to_value(&r.to_json())["data"], 3);
}

#[test]
fn tool_responses_serialize_their_content() {
    let r = ToolResponse::success("done".to_string());
    assert!(!r.is_error);
    let v = content_to_value(&r.to_value().unwrap());
    assert_eq!(v[0]["type"], "text");
    assert_eq!(v[0]["text"], "done");
    let r = ToolResponse::with_content(vec![
        ToolContent::Image { data: "d".to_string(), mime_type: "image/png".to_string() },
        ToolContent::Resource { uri: "u".to_string() },
    ]);
    let v = content_to_value(&r.to_value().unwrap());
    assert_eq!(v[0]["mime_type"], "image/png");
    assert_eq!(v[1]["type"], "resource");
    assert!(ToolResponse::error("x".to_string()).is_error);
    assert_eq!(TypedResponse::new(5u8).data, 5);
}

#[test]
fn limit_presets_are_ordered() {
    let strict = ResourceLimits::strict();
    let default = ResourceLimits::default();
    let unlimited = ResourceLimits::unlimited();
    assert_eq!(strict.max_message_size, 256 * 1024);
    assert_eq!(default.max_message_size, 2 * 1024 * 1024);
    assert_eq!(default.max_sessions, Some(10_000));
    assert_eq!(unlimited.max_sessions, None);
    assert!(strict.max_tools.unwrap() <= default.max_tools.unwrap());
    assert_eq!(unlimited.max_message_size, usize::MAX);
}

#[test]
fn health_reports_are_healthy_with_default_metadata() {
    let checker = HealthChecker::new("srv".to_string(), "1.2.3".to_string());
    let status = checker.get_status(Some(4), None);
    assert_eq!(status.status, "healthy");
    assert_eq!(status.version, "1.2.3");
    assert_eq!(status.session_count, Some(4));
    let meta = content_to_value(status.metadata.as_ref().unwrap());
    assert_eq!(meta["server_name"], "srv");
    assert_eq!(meta["protocol_version"], "2025-06-18");
    let json = content_to_value(&status.to_json());
    assert_eq!(json["session_count"], 4);
    assert!(json["timestamp"].as_u64().unwrap() > 1_600_000_000);
    let status = checker.get_status(None, Some(Json::Bool(true)));
    assert_eq!(content_to_value(&status.to_json())["metadata"], true);
}

#[test]
fn log_lines_are_formatted() {
    let logger = McpDebugLogger::new(McpConnectionId("c1".to_string()));
    assert_eq!(logger.fmt_message_received("text", 12), "[MCP:c1] 📥 Received text message (12 bytes)");
    assert_eq!(logger.fmt_unknown_method("m"), "[MCP:c1] ❓ Unknown MCP method requested: m");
    assert_eq!(logger.fmt_tool_call("t", "{}"), "[MCP:c1] 🛠️  Tool call - t with args: {}");
    assert!(logger.fmt_connection_closed().starts_with("[MCP:c1] 🔌 Connection closed after "));
    assert_eq!(fmt_mcp_server_startup(8080), "🚀 Starting MCP Server on port 8080");
    assert_eq!(fmt_mcp_server_ready("0.0.0.0:1"), "✅ MCP Server ready and listening on 0.0.0.0:1");
    assert_eq!(fmt_mcp_server_shutdown(), "🛑 MCP Server shutting down");
    assert_eq!(logger.connection_id().0, "c1");
}

#[test]
fn connection_ids_are_uuids() {
    let id = McpConnectionId::new();
    assert_eq!(id.0.len(), 36);
    assert_eq!(id.0.chars().nth(14), Some('4'));
    assert_eq!(id.to_string(), id.0);
    assert_ne!(McpConnectionId::new().0, id.0);
}

#[test]
fn request_ids_count_in_hex() {
    let mut g = RequestIdGenerator::new();
    let a = g.generate_request_id();
    let b = g.generate_request_id();
    assert!(a.ends_with("-0001"));
    assert!(b.ends_with("-0002"));
}

#[test]
fn minimal_handlers_answer_initialize_and_cancel() {
    let h = McpHandlers::new(McpDebugLogger::new(McpConnectionId("c".to_string())));
    match h.handle_mcp_message(&content_json(r#"{"method":"initialize","id":1,"params":{}}"#)) {
        HandlersStep::Done(Ok(j)) => {
            let v = content_to_value(&j);
            assert_eq!(v["id"], 1);
            assert_eq!(v["result"]["protocolVersion"], "2025-06-18");
            assert_eq!(v["result"]["serverInfo"]["name"], "mcp-server");
        }
        _ => panic!("expected a response"),
    }
    match h.handle_mcp_message(&content_json(r#"{"method":"x"}"#)) {
        HandlersStep::Done(Err(e)) => assert_eq!(e, "Unknown method: x"),
        _ => panic!("expected an error"),
    }
    match h.handle_mcp_message(&content_json(r#"{"method":"tools/call","id":2,"params":{"name":"n","arguments":{"a":1}}}"#)) {
        HandlersStep::CallTool { name, arguments, .. } => {
            assert_eq!(name, "n");
            assert_eq!(content_to_value(&arguments)["a"], 1);
        }
        _ => panic!("expected a tool call"),
    }
}

#[test]
fn request_ids_have_an_exact_form() {
    assert_eq!(solidmcp::logging::format_request_id(255, 1), "ff-0001");
    assert_eq!(solidmcp::logging::format_request_id(0x1a2b, 0x12345), "1a2b-2345");
}

#[test]
fn health_reports_at_given_times() {
    let checker = HealthChecker::new("srv".to_string(), "2.0".to_string());
    let status = checker.status_at(1_700_000_000, 42, None, None);
    assert_eq!(status.timestamp, 1_700_000_000);
    assert_eq!(status.uptime_seconds, 42);
    let json = content_to_value(&status.to_json());
    assert_eq!(json["status"], "healthy");
    assert_eq!(json["uptime_seconds"], 42);
    assert!(json["session_count"].is_null());
    let big = checker.status_at(u64::MAX, 0, None, None);
    assert_eq!(content_to_value(&big.to_json())["timestamp"], u64::MAX);
}

#[test]
fn handling_times_use_the_duration_debug_text() {
    let logger = McpDebugLogger::new(McpConnectionId("c2".to_string()));
    let d = solidmcp::clock::Elapsed { secs: 1, nanos: 500_000_000 };
    assert_eq!(logger.fmt_message_handling_success("m", d), "[MCP:c2] ✅ Successfully handled m in 1.5s");
    let d = solidmcp::clock::Elapsed { secs: 0, nanos: 2_000_000 };
    assert_eq!(logger.fmt_message_handling_error("m", "e", d), "[MCP:c2] ❌ Failed to handle m after 2ms: e");
}

#[test]
fn json_health_status_has_default_metadata() {
    let checker = HealthChecker::new("srv".to_string(), "3.1".to_string());
    let v = content_to_value(&checker.get_json_status(Some(2)));
    assert_eq!(v["status"], "healthy");
    assert_eq!(v["version"], "3.1");
    assert_eq!(v["session_count"], 2);
    assert_eq!(v["metadata"]["server_name"], "srv");
}

#[test]
fn closing_lines_use_the_span_since_start() {
    let logger = McpDebugLogger::new(McpConnectionId("c3".to_string()));
    let d = solidmcp::clock::Elapsed { secs: 2, nanos: 0 };
    assert_eq!(logger.fmt_connection_closed_after(d), "[MCP:c3] 🔌 Connection closed after 2s");
    assert!(logger.elapsed().nanos < 1_000_000_000);
}
