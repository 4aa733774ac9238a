use solidmcp::http::session::{
    create_session_cookie, extract_session_context, extract_session_id_from_cookie, generate_session_id,
};

#[test]
fn session_test_extract_session_id_from_cookie() {
    // Test valid cookie
    let cookie = Some("mcp_session=abc123; Path=/".to_string());
    assert_eq!(extract_session_id_from_cookie(&cookie), Some("abc123".to_string()));

    // Test cookie with multiple values
    let cookie = Some("other=value; mcp_session=xyz789; another=val".to_string());
    assert_eq!(extract_session_id_from_cookie(&cookie), Some("xyz789".to_string()));

    // Test no session cookie
    let cookie = Some("other=value; another=val".to_string());
    assert_eq!(extract_session_id_from_cookie(&cookie), None);

    // Test None cookie
    assert_eq!(extract_session_id_from_cookie(&None), None);
}

#[test]
fn test_extract_session_context_initialize() {
    let cookie = Some("mcp_session=existing".to_string());
    let context = extract_session_context("initialize", &cookie);

    assert_eq!(context.id, "http_default_session");
    assert!(context.is_new);
    assert!(context.from_cookie);
}

#[test]
fn test_extract_session_context_no_cookie() {
    let context = extract_session_context("tools/list", &None);

    assert_eq!(context.id, "http_default_session");
    assert!(!context.is_new);
    assert!(!context.from_cookie);
}

#[test]
fn test_extract_session_context_with_cookie() {
    let cookie = Some("mcp_session=session123".to_string());
    let context = extract_session_context("tools/list", &cookie);

    assert_eq!(context.id, "session123");
    assert!(!context.is_new);
    assert!(context.from_cookie);
}

#[test]
fn test_generate_session_id() {
    let id1 = generate_session_id();
    let id2 = generate_session_id();

    // Should be 32 characters
    assert_eq!(id1.len(), 32);
    assert_eq!(id2.len(), 32);

    // Should be different
    assert_ne!(id1, id2);

    // Should be alphanumeric
    assert!(id1.chars().all(|c| c.is_ascii_alphanumeric()));
}

#[test]
fn test_create_session_cookie() {
    let cookie = create_session_cookie("test123");
    assert!(cookie.contains("mcp_session=test123"));
    assert!(cookie.contains("HttpOnly"));
    assert!(cookie.contains("SameSite=Strict"));
    assert!(cookie.contains("Max-Age=86400"));
}

#[test]
fn session_cookie_round_trip_gives_back_the_id() {
    let id = generate_session_id();
    let cookie = Some(create_session_cookie(&id));
    assert_eq!(extract_session_id_from_cookie(&cookie), Some(id));
}

#[test]
fn session_cookie_prefix_repetitions_are_all_removed() {
    let cookie = Some("  mcp_session=mcp_session=abc ;x=1".to_string());
    assert_eq!(extract_session_id_from_cookie(&cookie), Some("abc".to_string()));
    let cookie = Some("mcp_session=".to_string());
    assert_eq!(extract_session_id_from_cookie(&cookie), Some(String::new()));
}

#[test]
fn session_cookie_text_is_exact() {
    assert_eq!(
        create_session_cookie("s1"),
        "mcp_session=s1; Path=/mcp; HttpOnly; SameSite=Strict; Max-Age=86400"
    );
}
