use serde_json::Value;
use solidmcp::error::McpError;
use solidmcp::http::response::ResponseBuilder;
use solidmcp::http::validation::{extract_content_type, validate_request};
use solidmcp::http::HttpReply;
use solidmcp::json::Json;

fn val_json(text: &str) -> Json {
    val_from_value(&serde_json::from_str::<Value>(text).unwrap())
}

fn val_from_value(v: &Value) -> Json {
    match v {
        Value::Null => Json::Null,
        Value::Bool(b) => Json::Bool(*b),
        Value::Number(n) => match n.as_i64() {
            Some(i) => Json::Int(i),
            None => Json::Number(n.to_string()),
        },
        Value::String(s) => Json::Str(s.clone()),
        Value::Array(a) => Json::Array(a.iter().map(val_from_value).collect()),
        Value::Object(o) => Json::Object(o.iter().map(|(k, x)| (k.clone(), val_from_value(x))).collect()),
    }
}

fn val_to_value(j: &Json) -> Value {
    match j {
        Json::Null => Value::Null,
        Json::Bool(b) => Value::Bool(*b),
        Json::Int(i) => Value::from(*i),
        Json::Number(t) => serde_json::from_str(t).unwrap(),
        Json::Str(s) => Value::String(s.clone()),
        Json::Array(a) => Value::Array(a.iter().map(val_to_value).collect()),
        Json::Object(o) => Value::Object(o.iter().map(|(k, x)| (k.clone(), val_to_value(x))).collect()),
    }
}

fn reply_header<'a>(reply: &'a HttpReply, name: &str) -> Option<&'a str> {
    reply.headers.iter().find(|(k, _)| k == name).map(|(_, v)| v.as_str())
}

fn size_of(text: &str) -> usize {
    text.len()
}

#[test]
fn test_validate_request_valid() {
    let text = r#"{"jsonrpc":"2.0","method":"initialize","id":1,"params":{}}"#;
    let result = validate_request(val_json(text), "application/json", size_of(text));
    assert!(result.is_ok());

    let validated = result.unwrap();
    assert_eq!(validated.method, "initialize");
    assert_eq!(val_to_value(&validated.message_id), 1);
    assert!(validated.has_params);
    assert!(!validated.has_meta);
    assert!(!validated.has_progress_token);
}

#[test]
fn test_validate_request_invalid_content_type() {
    let text = r#"{"jsonrpc":"2.0","method":"test"}"#;
    let result = validate_request(val_json(text), "text/plain", size_of(text));
    assert!(matches!(result, Err(McpError::InvalidParams(_))));
}

#[test]
fn test_validate_request_missing_jsonrpc() {
    let text = r#"{"method":"test"}"#;
    let result = validate_request(val_json(text), "application/json", size_of(text));
    assert!(matches!(result, Err(McpError::InvalidParams(_))));
}

#[test]
fn test_validate_request_wrong_jsonrpc_version() {
    let text = r#"{"jsonrpc":"1.0","method":"test"}"#;
    let result = validate_request(val_json(text), "application/json", size_of(text));
    assert!(matches!(result, Err(McpError::InvalidParams(_))));

    if let Err(McpError::InvalidParams(msg)) = result {
        assert!(msg.contains("Invalid jsonrpc version"));
    }
}

#[test]
fn test_validate_request_missing_method() {
    let text = r#"{"jsonrpc":"2.0","id":1}"#;
    let result = validate_request(val_json(text), "application/json", size_of(text));
    assert!(matches!(result, Err(McpError::InvalidParams(_))));
}

#[test]
fn test_validate_request_with_progress_token() {
    let text = r#"{"jsonrpc":"2.0","method":"tools/call","id":1,"params":{"_meta":{"progressToken":"abc123"}}}"#;
    let result = validate_request(val_json(text), "application/json", size_of(text));
    assert!(result.is_ok());

    let validated = result.unwrap();
    assert!(validated.has_progress_token);
    assert!(validated.has_meta);
}

#[test]
fn test_extract_content_type() {
    assert_eq!(
        extract_content_type(Some("application/json; charset=utf-8".to_string())),
        "application/json; charset=utf-8"
    );

    assert_eq!(extract_content_type(None), "application/json");
}

#[test]
fn validation_error_texts_are_exact() {
    let text = r#"{"jsonrpc":"1.0","method":"test"}"#;
    match validate_request(val_json(text), "application/json", 3) {
        Err(McpError::InvalidParams(msg)) => assert_eq!(msg, "Invalid jsonrpc version: 1.0. Expected 2.0"),
        _ => panic!("expected an error"),
    }
    match validate_request(val_json(text), "text/html", 3) {
        Err(McpError::InvalidParams(msg)) => {
            assert_eq!(msg, "Invalid Content-Type: text/html. Expected application/json")
        }
        _ => panic!("expected an error"),
    }
    let ok = validate_request(val_json(r#"{"jsonrpc":"2.0","method":"m"}"#), "application/json", 42).unwrap();
    assert_eq!(ok.request_size, 42);
    assert!(val_to_value(&ok.message_id).is_null());
}

#[test]
fn test_response_builder_basic() {
    let response = ResponseBuilder::new().build_success(val_json(r#"{"result":"ok"}"#));
    assert_eq!(response.status, 200);
    assert!(reply_header(&response, "Content-Type").is_some());
}

#[test]
fn test_response_builder_with_session() {
    let response = ResponseBuilder::new()
        .with_session("test123".to_string())
        .build_success(val_json(r#"{"result":"ok"}"#));

    let cookie_header = reply_header(&response, "Set-Cookie");
    assert!(cookie_header.is_some());
    let cookie_str = cookie_header.unwrap();
    assert!(cookie_str.contains("mcp_session=test123"));
}

#[test]
fn test_response_builder_with_chunked() {
    let response = ResponseBuilder::new()
        .with_chunked_encoding(true)
        .build_success(val_json(r#"{"result":"ok"}"#));

    let encoding_header = reply_header(&response, "Transfer-Encoding");
    assert!(encoding_header.is_some());
    assert_eq!(encoding_header.unwrap(), "chunked");
}

#[test]
fn test_response_builder_error() {
    let error = McpError::InvalidParams("Test error".to_string());
    let response = ResponseBuilder::new().build_error(error, Some(Json::Int(1)));
    assert_eq!(response.status, 200); // JSON-RPC errors use 200
    let body = val_to_value(&response.documents[0]);
    assert_eq!(body["id"], 1);
    assert_eq!(body["error"]["code"], -32602);
    assert_eq!(body["error"]["message"], "Invalid parameters: Test error");
}

#[test]
fn invalid_cookie_values_are_left_out() {
    let response = ResponseBuilder::new()
        .with_session("bad\u{7f}id".to_string())
        .build_success(Json::Null);
    assert!(reply_header(&response, "Set-Cookie").is_none());
    let response = ResponseBuilder::new()
        .with_session("caf\u{e9}".to_string())
        .build_success(Json::Null);
    assert!(reply_header(&response, "Set-Cookie").is_some());
}
