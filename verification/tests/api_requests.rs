use updatenight_cli::api::{
    api_base, authorization_header, device_code_request, device_token_request, get_news_request,
    list_by_category_request, search_entries_request, semantic_search_request, ApiRequest, HttpMethod,
};

fn pairs(r: &ApiRequest) -> Vec<(&str, &str)> {
    r.query.iter().map(|(k, v)| (k.as_str(), v.as_str())).collect()
}

#[test]
fn api_base_defaults_to_documented_host() {
    assert_eq!(api_base(None), "https://server.updatenight.com");
}

#[test]
fn api_base_prefers_configured_host() {
    assert_eq!(api_base(Some("http://localhost:3000".to_string())), "http://localhost:3000");
}

#[test]
fn search_entries_request_is_a_text_search() {
    let r = search_entries_request("https://h.example", "rag tools", None);
    assert_eq!(r.method, HttpMethod::Get);
    assert_eq!(r.url, "https://h.example/api/entries");
    assert_eq!(pairs(&r), vec![("q", "rag tools"), ("status", "published"), ("limit", "20")]);
    assert_eq!(r.body, None);
    assert_eq!(r.authorization, None);
}

#[test]
fn list_by_category_request_names_kind_and_category() {
    let r = list_by_category_request("https://h.example", "mcp", "vector-db", Some("t0k"));
    assert_eq!(r.method, HttpMethod::Get);
    assert_eq!(r.url, "https://h.example/api/entries");
    assert_eq!(
        pairs(&r),
        vec![("kind", "mcp"), ("category", "vector-db"), ("status", "published"), ("limit", "20")]
    );
    assert_eq!(r.authorization.as_deref(), Some("Bearer t0k"));
}

#[test]
fn get_news_request_formats_days() {
    let r = get_news_request("https://h.example", 7, None);
    assert_eq!(r.url, "https://h.example/api/news");
    assert_eq!(pairs(&r), vec![("days", "7"), ("status", "published"), ("limit", "30")]);
    let r = get_news_request("https://h.example", 4294967295, None);
    assert_eq!(pairs(&r)[0], ("days", "4294967295"));
    let r = get_news_request("https://h.example", 0, None);
    assert_eq!(pairs(&r)[0], ("days", "0"));
}

#[test]
fn semantic_search_request_posts_json_body() {
    let r = semantic_search_request("https://h.example", "hello \"world\"\n", "secret");
    assert_eq!(r.method, HttpMethod::Post);
    assert_eq!(r.url, "https://h.example/api/search");
    assert!(r.query.is_empty());
    assert_eq!(r.body.as_deref(), Some("{\"limit\":20,\"q\":\"hello \\\"world\\\"\\n\"}"));
    assert_eq!(r.authorization.as_deref(), Some("Bearer secret"));
}

#[test]
fn authorization_header_for_plain_token() {
    assert_eq!(authorization_header(Some("abc.DEF-123")).as_deref(), Some("Bearer abc.DEF-123"));
    assert_eq!(authorization_header(None), None);
}

#[test]
fn authorization_header_refuses_control_bytes() {
    assert_eq!(authorization_header(Some("ab\ncd")), None);
    assert_eq!(authorization_header(Some("ab\u{7f}")), None);
    assert_eq!(authorization_header(Some("ab\u{0}")), None);
}

#[test]
fn authorization_header_accepts_tab_and_non_ascii() {
    assert_eq!(authorization_header(Some("a\tb")).as_deref(), Some("Bearer a\tb"));
    assert_eq!(authorization_header(Some("caf\u{e9}")).as_deref(), Some("Bearer caf\u{e9}"));
}

#[test]
fn device_code_request_shape() {
    let r = device_code_request("https://h.example");
    assert_eq!(r.method, HttpMethod::Post);
    assert_eq!(r.url, "https://h.example/api/auth/device/code");
    assert_eq!(r.body.as_deref(), Some("{\"client_id\":\"updatenight-cli\"}"));
    assert_eq!(r.authorization, None);
}

#[test]
fn device_token_request_shape() {
    let r = device_token_request("https://h.example", "dev-42");
    assert_eq!(r.url, "https://h.example/api/auth/device/token");
    assert_eq!(
        r.body.as_deref(),
        Some(
            "{\"client_id\":\"updatenight-cli\",\"device_code\":\"dev-42\",\"grant_type\":\"urn:ietf:params:oauth:grant-type:device_code\"}"
        )
    );
}

#[test]
fn json_body_escapes_backslash_and_control_characters() {
    let r = semantic_search_request("https://h.example", "a\\b\t\u{1}\u{1f}é", "t");
    assert_eq!(r.body.as_deref(), Some("{\"limit\":20,\"q\":\"a\\\\b\\t\\u0001\\u001fé\"}"));
}
