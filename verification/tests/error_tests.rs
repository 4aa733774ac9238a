use solidmcp::error::{McpError, ProtocolError, TransportError, PROTOCOL_MESSAGE_LIMIT};
use solidmcp::json::Json;

#[test]
fn every_error_has_its_code_and_text() {
    let cases: Vec<(McpError, i32, &str)> = vec![
        (McpError::UnknownMethod("m".to_string()), -32601, "Method not found: m"),
        (McpError::InvalidParams("p".to_string()), -32602, "Invalid parameters: p"),
        (McpError::NotInitialized, -32002, "Not initialized"),
        (McpError::AlreadyInitialized, -32603, "Already initialized"),
        (McpError::UnknownTool("t".to_string()), -32601, "Tool not found: t"),
        (McpError::UnknownResource("r".to_string()), -32601, "Resource not found: r"),
        (McpError::UnknownPrompt("q".to_string()), -32601, "Prompt not found: q"),
        (McpError::InvalidPath("/x".to_string()), -32003, "Invalid path: /x"),
        (McpError::PermissionDenied("no".to_string()), -32003, "Permission denied: no"),
        (McpError::TooManySessions(10), -32000, "Too many sessions (max: 10)"),
        (McpError::MessageTooLarge(5, 4), -32000, "Message too large: 5 bytes (max: 4)"),
        (McpError::RateLimitExceeded, -32000, "Rate limit exceeded"),
        (McpError::Io("disk".to_string()), -32603, "IO error: disk"),
        (McpError::Json("eof".to_string()), -32700, "JSON error: eof"),
        (McpError::Internal("x".to_string()), -32603, "Internal error: x"),
    ];
    for (e, code, text) in cases {
        assert_eq!(e.error_code(), code);
        assert_eq!(e.message(), text);
    }
}

#[test]
fn json_rpc_errors_carry_code_text_and_id() {
    let e = McpError::NotInitialized;
    match e.to_json_rpc_error(Some(Json::Int(5))) {
        Json::Object(members) => {
            let find = |k: &str| members.iter().find(|(key, _)| key == k).map(|(_, v)| v);
            assert!(matches!(find("jsonrpc"), Some(Json::Str(s)) if s == "2.0"));
            assert!(matches!(find("id"), Some(Json::Int(5))));
            match find("error") {
                Some(Json::Object(inner)) => {
                    assert!(inner.iter().any(|(k, v)| k == "code" && matches!(v, Json::Int(-32002))));
                }
                _ => panic!("expected an error object"),
            }
        }
        _ => panic!("expected an object"),
    }
    assert!(matches!(
        McpError::InvalidParams("x".to_string()).to_json_rpc_error(None),
        Json::Object(ref m) if m.iter().any(|(k, v)| k == "id" && matches!(v, Json::Null))
    ));
}

#[test]
fn module_errors_become_server_errors() {
    let e = McpError::from_transport(TransportError::ConnectionClosed);
    assert_eq!(e.message(), "Internal error: Connection closed");
    let e = McpError::from_transport(TransportError::WebSocket("w".to_string()));
    assert_eq!(e.message(), "Internal error: WebSocket error: w");
    let e = McpError::from_protocol(ProtocolError::MessageTooLarge(3_000_000));
    assert!(matches!(e, McpError::MessageTooLarge(3_000_000, n) if n == PROTOCOL_MESSAGE_LIMIT));
    assert_eq!(PROTOCOL_MESSAGE_LIMIT, 2 * 1024 * 1024);
    let e = McpError::from_protocol(ProtocolError::InvalidVersion("9".to_string()));
    assert_eq!(e.message(), "Internal error: Invalid protocol version: 9");
    assert_eq!(ProtocolError::InvalidFormat.message(), "Invalid message format");
    assert_eq!(TransportError::Http("h".to_string()).message(), "HTTP error: h");
}
