use serde_json::Value;
use solidmcp::error::McpError;
use solidmcp::message::{classify_message, MessageKind};

#[test]
fn messages_are_classified_by_method() {
    assert_eq!(classify_message("2.0", "initialize", true).unwrap(), MessageKind::Initialize);
    assert_eq!(classify_message("2.0", "tools/list", false).unwrap(), MessageKind::ToolsList);
    assert_eq!(classify_message("2.0", "tools/call", true).unwrap(), MessageKind::ToolsCall);
    assert_eq!(classify_message("2.0", "resources/list", false).unwrap(), MessageKind::ResourcesList);
    assert_eq!(classify_message("2.0", "resources/read", true).unwrap(), MessageKind::ResourcesRead);
    assert_eq!(classify_message("2.0", "prompts/list", false).unwrap(), MessageKind::PromptsList);
    assert_eq!(classify_message("2.0", "prompts/get", true).unwrap(), MessageKind::PromptsGet);
    assert_eq!(classify_message("2.0", "notifications/initialized", false).unwrap(), MessageKind::Notification);
}

#[test]
fn classification_errors() {
    match classify_message("1.0", "test", true) {
        Err(McpError::InvalidParams(msg)) => assert_eq!(msg, "Invalid jsonrpc version: 1.0"),
        _ => panic!("expected InvalidParams"),
    }
    match classify_message("2.0", "", true) {
        Err(McpError::InvalidParams(msg)) => assert_eq!(msg, "Empty method name"),
        _ => panic!("expected InvalidParams"),
    }
    match classify_message("2.0", "tools/call", false) {
        Err(McpError::InvalidParams(msg)) => assert_eq!(msg, "Missing params for tools/call"),
        _ => panic!("expected InvalidParams"),
    }
    match classify_message("2.0", "unknown/method", true) {
        Err(McpError::UnknownMethod(m)) => assert_eq!(m, "unknown/method"),
        _ => panic!("expected UnknownMethod"),
    }
}

/// Classifies a message given as JSON text by its version, its method and whether it
/// has parameters.
fn classify_text(msg: &str) -> Result<MessageKind, McpError> {
    let raw: Value = serde_json::from_str(msg).unwrap();
    let jsonrpc = raw["jsonrpc"].as_str().unwrap();
    let method = raw["method"].as_str().unwrap();
    classify_message(jsonrpc, method, raw.get("params").is_some())
}

#[test]
fn test_validation_error() {
    let msg = r#"{"jsonrpc":"1.0","id":1,"method":"test","params":{}}"#;
    let result = classify_text(msg);

    assert!(result.is_err());
    if let Err(McpError::InvalidParams(msg)) = result {
        assert!(msg.contains("Invalid jsonrpc version"));
    } else {
        panic!("Expected InvalidParams error");
    }
}

#[test]
fn test_tools_list_no_params() {
    let msg = r#"{"jsonrpc":"2.0","id":3,"method":"tools/list"}"#;
    let parsed = classify_text(msg).unwrap();

    assert!(matches!(parsed, MessageKind::ToolsList));
}

#[test]
fn test_unknown_method() {
    let msg = r#"{"jsonrpc":"2.0","id":4,"method":"unknown/method","params":{}}"#;
    let result = classify_text(msg);

    assert!(result.is_err());
    assert!(matches!(result.unwrap_err(), McpError::UnknownMethod(_)));
}
