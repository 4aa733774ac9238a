use serde_json::Value;
use solidmcp::error::McpError;
use solidmcp::http::{
    create_error_reply, detect_cursor_client, effective_session_id, extract_session_id_from_cookie, finish_http_exchange,
    http_error_code, plan_http_request, reply_delay_ms, supports_streaming, HttpPlan, HttpReply,
    SessionIdGenerator,
};
use solidmcp::http_handler::{finish_post_exchange, plan_post_exchange, PostPlan};
use solidmcp::json::Json;

fn http_json(text: &str) -> Json {
    http_from_value(&serde_json::from_str::<Value>(text).unwrap())
}

fn http_from_value(v: &Value) -> Json {
    match v {
        Value::Null => Json::Null,
        Value::Bool(b) => Json::Bool(*b),
        Value::Number(n) => match n.as_i64() {
            Some(i) => Json::Int(i),
            None => Json::Number(n.to_string()),
        },
        Value::String(s) => Json::Str(s.clone()),
        Value::Array(a) => Json::Array(a.iter().map(http_from_value).collect()),
        Value::Object(o) => Json::Object(o.iter().map(|(k, x)| (k.clone(), http_from_value(x))).collect()),
    }
}

fn http_to_value(j: &Json) -> Value {
    match j {
        Json::Null => Value::Null,
        Json::Bool(b) => Value::Bool(*b),
        Json::Int(i) => Value::from(*i),
        Json::Number(t) => serde_json::from_str(t).unwrap(),
        Json::Str(s) => Value::String(s.clone()),
        Json::Array(a) => Value::Array(a.iter().map(http_to_value).collect()),
        Json::Object(o) => Value::Object(o.iter().map(|(k, x)| (k.clone(), http_to_value(x))).collect()),
    }
}

fn header<'a>(reply: &'a HttpReply, name: &str) -> Option<&'a str> {
    reply.headers.iter().find(|(k, _)| k == name).map(|(_, v)| v.as_str())
}

#[test]
fn http_test_extract_session_id_from_cookie() {
    // Test with valid session cookie
    let cookie = Some("mcp_session=test_session_123; other=value".to_string());
    assert_eq!(extract_session_id_from_cookie(&cookie), Some("test_session_123".to_string()));

    // Test with session cookie only
    let cookie = Some("mcp_session=simple_session".to_string());
    assert_eq!(extract_session_id_from_cookie(&cookie), Some("simple_session".to_string()));

    // Test with no session cookie
    let cookie = Some("other=value; another=test".to_string());
    assert_eq!(extract_session_id_from_cookie(&cookie), None);

    // Test with empty cookie
    let cookie = Some("".to_string());
    assert_eq!(extract_session_id_from_cookie(&cookie), None);

    // Test with None
    assert_eq!(extract_session_id_from_cookie(&None), None);

    // Test with spaces around session value
    let cookie = Some("mcp_session=  spaced_session  ; other=value".to_string());
    assert_eq!(extract_session_id_from_cookie(&cookie), Some("spaced_session".to_string()));
}

#[test]
fn test_generate_session_id_format() {
    let mut generator = SessionIdGenerator::new();
    let session_id = generator.generate_session_id();

    // Should start with "session_"
    assert!(session_id.starts_with("session_"));

    // Should have reasonable length
    assert!(session_id.len() > 8);
    assert!(session_id.len() < 30);

    // Should contain only alphanumeric and underscore
    assert!(session_id.chars().all(|c| c.is_alphanumeric() || c == '_'));
}

#[test]
fn test_generate_session_id_uniqueness() {
    // Generate multiple session IDs
    let mut generator = SessionIdGenerator::new();
    let ids: Vec<String> = (0..100).map(|_| generator.generate_session_id()).collect();

    // All should be unique
    let unique_count = ids.iter().collect::<std::collections::HashSet<_>>().len();
    assert_eq!(unique_count, ids.len());
}

#[test]
fn test_effective_session_id_logic() {
    // Test initialize method without session
    let session_id: Option<String> = None;
    assert_eq!(effective_session_id("initialize", &session_id), "http_default_session");

    // Test non-initialize method without session
    let session_id: Option<String> = None;
    assert_eq!(effective_session_id("tools/list", &session_id), "http_default_session");

    // Test with existing session
    let session_id = Some("existing_session".to_string());
    assert_eq!(effective_session_id("tools/list", &session_id), "existing_session");
}

#[test]
fn effective_session_of_initialize_ignores_the_cookie() {
    let session_id = Some("existing_session".to_string());
    assert_eq!(effective_session_id("initialize", &session_id), "http_default_session");
}

#[test]
fn cursor_clients_are_detected_by_any_header() {
    assert!(detect_cursor_client("application/json; Cursor", "x", &None));
    assert!(detect_cursor_client("a", "Cursor/1.0", &None));
    assert!(detect_cursor_client("a", "b", &Some("agent=Cursor".to_string())));
    assert!(!detect_cursor_client("application/json", "application/json", &Some("cursor".to_string())));
}

#[test]
fn streaming_is_detected_case_insensitively_on_connection() {
    assert!(supports_streaming("text/event-stream", "close"));
    assert!(supports_streaming("application/json", "Keep-Alive"));
    assert!(supports_streaming("application/json", "UPGRADE"));
    assert!(!supports_streaming("application/json", "close"));
}

#[test]
fn error_codes_are_read_off_the_error_text() {
    assert_eq!(http_error_code("Not initialized"), -32002);
    assert_eq!(http_error_code("Method not found: x"), -32601);
    assert_eq!(http_error_code("Unknown method: x"), -32601);
    assert_eq!(http_error_code("Invalid params: x"), -32602);
    assert_eq!(http_error_code("Invalid parameters: x"), -32603);
    assert_eq!(http_error_code("boom"), -32603);
}

#[test]
fn invalid_validation_is_refused_with_400() {
    let m = http_json(r#"{"jsonrpc":"2.0","method":"x","id":1}"#);
    let plan = plan_http_request(&m, None, None, None, None, Err("Bad".to_string()));
    match plan {
        HttpPlan::Reject(r) => {
            assert_eq!(r.status, 400);
            let body = http_to_value(&r.documents[0]);
            assert_eq!(body["error"]["code"], -32600);
            assert_eq!(body["error"]["message"], "Invalid request: Bad");
            assert!(body["id"].is_null());
        }
        HttpPlan::Handle(_) => panic!("expected a refusal"),
    }
}

#[test]
fn non_json_content_type_is_refused_with_400() {
    let m = http_json(r#"{"jsonrpc":"2.0","method":"x","id":1}"#);
    let plan = plan_http_request(&m, Some("text/plain".to_string()), None, None, None, Ok(()));
    match plan {
        HttpPlan::Reject(r) => {
            assert_eq!(r.status, 400);
            let body = http_to_value(&r.documents[0]);
            assert_eq!(body["error"]["message"], "Invalid Content-Type: text/plain");
            assert_eq!(header(&r, "content-type"), Some("application/json"));
        }
        HttpPlan::Handle(_) => panic!("expected a refusal"),
    }
}

#[test]
fn initialize_reply_sets_the_session_cookie() {
    let m = http_json(r#"{"jsonrpc":"2.0","method":"initialize","id":1,"params":{}}"#);
    let plan = plan_http_request(&m, None, None, None, Some("mcp_session=abc".to_string()), Ok(()));
    let ex = match plan {
        HttpPlan::Handle(ex) => ex,
        HttpPlan::Reject(_) => panic!("expected handling"),
    };
    assert_eq!(ex.session_id, "http_default_session");
    assert!(!ex.use_chunked);
    let response = http_json(r#"{"jsonrpc":"2.0","id":1,"result":{}}"#);
    let reply = finish_http_exchange(&ex, Ok(response), "done");
    assert_eq!(reply.status, 200);
    assert!(reply.content_length);
    assert_eq!(header(&reply, "connection"), Some("close"));
    assert_eq!(
        header(&reply, "set-cookie"),
        Some("mcp_session=http_default_session; Path=/mcp; HttpOnly; SameSite=Strict")
    );
}

#[test]
fn progress_tokens_give_notification_lines() {
    let m = http_json(
        r#"{"jsonrpc":"2.0","method":"tools/list","id":5,"params":{"_meta":{"progressToken":"t1"}}}"#,
    );
    let plan = plan_http_request(&m, None, None, Some("keep-alive".to_string()), Some("mcp_session=s9".to_string()), Ok(()));
    let ex = match plan {
        HttpPlan::Handle(ex) => ex,
        HttpPlan::Reject(_) => panic!("expected handling"),
    };
    assert_eq!(ex.session_id, "s9");
    assert!(!ex.use_chunked);
    let response = http_json(r#"{"jsonrpc":"2.0","id":5,"result":{"tools":[]}}"#);
    let reply = finish_http_exchange(&ex, Ok(response), "Request completed in 1.00ms");
    assert!(reply.line_delimited);
    assert_eq!(reply.documents.len(), 3);
    let first = http_to_value(&reply.documents[0]);
    assert_eq!(first["method"], "notifications/progress");
    assert_eq!(first["params"]["progressToken"], "t1");
    assert_eq!(first["params"]["progress"], 0.0);
    let second = http_to_value(&reply.documents[1]);
    assert_eq!(second["params"]["message"], "Request completed in 1.00ms");
    assert_eq!(second["params"]["total"], 100.0);
    assert_eq!(header(&reply, "transfer-encoding"), Some("chunked"));
    assert_eq!(header(&reply, "set-cookie"), Some(""));
}

#[test]
fn errors_are_answered_with_200_and_the_request_id() {
    let m = http_json(r#"{"jsonrpc":"2.0","method":"tools/list","id":"q"}"#);
    let ex = match plan_http_request(&m, None, Some("text/event-stream".to_string()), None, None, Ok(())) {
        HttpPlan::Handle(ex) => ex,
        HttpPlan::Reject(_) => panic!("expected handling"),
    };
    assert!(ex.use_chunked);
    let reply = finish_http_exchange(&ex, Err(McpError::NotInitialized), "");
    assert_eq!(reply.status, 200);
    let body = http_to_value(&reply.documents[0]);
    assert_eq!(body["id"], "q");
    assert_eq!(body["error"]["code"], -32002);
    assert_eq!(body["error"]["message"], "Not initialized");
}

#[test]
fn reply_delay_depends_on_cursor_and_size() {
    assert_eq!(reply_delay_ms(true, 5001), 15);
    assert_eq!(reply_delay_ms(true, 5000), 10);
    assert_eq!(reply_delay_ms(false, 9000), 10);
}

#[test]
fn the_cookie_set_after_initialize_is_read_back() {
    let m = http_json(r#"{"jsonrpc":"2.0","method":"initialize","id":1,"params":{}}"#);
    let ex = match plan_http_request(&m, None, None, None, None, Ok(())) {
        HttpPlan::Handle(ex) => ex,
        HttpPlan::Reject(_) => panic!("expected handling"),
    };
    let reply = finish_http_exchange(&ex, Ok(http_json(r#"{"jsonrpc":"2.0","id":1,"result":{}}"#)), "");
    let cookie = header(&reply, "set-cookie").unwrap().to_string();
    assert_eq!(extract_session_id_from_cookie(&Some(cookie)), Some("http_default_session".to_string()));
}

#[test]
fn sse_requests_get_the_fallback_body() {
    let body = solidmcp::http::sse_fallback_body(&Some("text/event-stream".to_string())).unwrap();
    let v = http_to_value(&body);
    assert_eq!(v["error"]["code"], -32600);
    assert_eq!(v["error"]["data"]["supported_transports"][1], "websocket");
    assert!(solidmcp::http::sse_fallback_body(&Some("application/json".to_string())).is_none());
    assert!(solidmcp::http::sse_fallback_body(&None).is_none());
}

#[test]
fn session_ids_have_an_exact_form() {
    assert_eq!(solidmcp::http::format_session_id(1700000000123, 7), "session_1700000000123_7");
}

#[test]
fn post_initialize_cookie_names_the_initialized_session() {
    let init = http_json(r#"{"jsonrpc":"2.0","id":1,"method":"initialize","params":{"protocolVersion":"2025-06-18"}}"#);
    let ex = match plan_post_exchange(init, None, None, &None, 80, Ok(())) {
        PostPlan::Handle(ex) => ex,
        PostPlan::Reject(_) => panic!("expected handling"),
    };
    assert!(ex.session.is_new);
    assert_eq!(ex.session.id.len(), 32);
    assert_ne!(ex.session.id, "http_default_session");
    let reply = finish_post_exchange(&ex, Ok(http_json(r#"{"jsonrpc":"2.0","id":1,"result":{}}"#)));
    let cookie = header(&reply, "Set-Cookie").unwrap().to_string();
    assert!(cookie.starts_with(&format!("mcp_session={};", ex.session.id)));

    let next = http_json(r#"{"jsonrpc":"2.0","id":2,"method":"tools/list"}"#);
    let ex2 = match plan_post_exchange(next, None, None, &Some(cookie), 50, Ok(())) {
        PostPlan::Handle(ex2) => ex2,
        PostPlan::Reject(_) => panic!("expected handling"),
    };
    assert_eq!(ex2.session.id, ex.session.id);
    assert!(!ex2.session.is_new);
    assert!(ex2.session.from_cookie);
}

#[test]
fn post_errors_come_back_with_the_request_id() {
    let bad = http_json(r#"{"jsonrpc":"2.0","id":3,"method":"m"}"#);
    match plan_post_exchange(bad, None, None, &None, 10, Err("shape".to_string())) {
        PostPlan::Reject(r) => {
            let body = http_to_value(&r.documents[0]);
            assert_eq!(body["id"], 3);
            assert_eq!(body["error"]["message"], "Invalid parameters: Invalid request: shape");
        }
        PostPlan::Handle(_) => panic!("expected a refusal"),
    }
}

#[test]
fn test_create_error_reply_format() {
    let error = http_json(r#"{"jsonrpc":"2.0","id":null,"error":{"code":-32600,"message":"Invalid Request"}}"#);
    let expected = http_to_value(&error);

    let response = create_error_reply(error, 200);

    assert_eq!(response.status, 200);
    assert_eq!(header(&response, "content-type"), Some("application/json"));
    assert_eq!(response.documents.len(), 1);
    assert_eq!(http_to_value(&response.documents[0]), expected);
}
