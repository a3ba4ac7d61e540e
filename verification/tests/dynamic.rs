use abigail::dynamic::{
    dynamic_tool_flags, find_dynamic_tool, prepare_request, HttpMethod,
    dynamic_manifest, extract_secret_keys, render_template, validate_config, validate_url_ssrf,
    DynamicSkillConfig, DynamicToolConfig,
};
use abigail::tool_args::{ArgValue, ToolArgs};

fn empty_json() -> serde_json::Value {
    serde_json::from_str("{}").unwrap()
}

fn tool(name: &str, url: &str) -> DynamicToolConfig {
    DynamicToolConfig {
        name: name.to_string(),
        description: "Fetch data from test API".to_string(),
        parameters: serde_json::from_str(
            r#"{"type": "object", "properties": {"query": {"type": "string", "description": "Search query"}}, "required": ["query"]}"#,
        )
        .unwrap(),
        method: "GET".to_string(),
        url_template: url.to_string(),
        headers: vec![],
        body_template: None,
        response_extract: vec![],
        response_format: None,
    }
}

fn sample_config() -> DynamicSkillConfig {
    DynamicSkillConfig {
        id: "dynamic.test_api".to_string(),
        name: "Test API".to_string(),
        description: "A test dynamic skill".to_string(),
        version: "1.0.0".to_string(),
        category: "Testing".to_string(),
        created_at: "2026-01-01T00:00:00Z".to_string(),
        tools: vec![tool("get_data", "https://api.example.com/data?q={{query}}")],
    }
}

#[test]
fn test_validate_config_valid() {
    assert!(validate_config(&sample_config()).is_ok());
}

#[test]
fn test_validate_config_missing_dynamic_prefix() {
    let mut config = sample_config();
    config.id = "test_api".to_string();
    assert!(validate_config(&config).unwrap_err().contains("dynamic."));
}

#[test]
fn test_validate_config_bad_id_chars() {
    let mut config = sample_config();
    config.id = "dynamic.test api!".to_string();
    assert!(validate_config(&config).is_err());
}

#[test]
fn test_validate_config_empty_tools() {
    let mut config = sample_config();
    config.tools.clear();
    assert!(validate_config(&config).unwrap_err().contains("at least one"));
}

#[test]
fn test_validate_config_too_many_tools() {
    let mut config = sample_config();
    for i in 0..11 {
        let mut t = tool(&format!("tool_{:03}", i), "https://example.com");
        t.description = "Extra".to_string();
        t.parameters = empty_json();
        config.tools.push(t);
    }
    assert!(validate_config(&config).unwrap_err().contains("at most 10"));
}

#[test]
fn test_validate_config_duplicate_tool_names() {
    let mut config = sample_config();
    config.tools.push(tool("get_data", "https://api.example.com/data?q={{query}}"));
    assert!(validate_config(&config).unwrap_err().contains("Duplicate"));
}

#[test]
fn test_validate_tool_name_too_short() {
    let mut config = sample_config();
    config.tools[0].name = "ab".to_string();
    assert!(validate_config(&config).unwrap_err().contains("3-64"));
}

#[test]
fn test_validate_tool_bad_method() {
    let mut config = sample_config();
    config.tools[0].method = "PATCH".to_string();
    assert!(validate_config(&config).unwrap_err().contains("Method"));
}

#[test]
fn test_validate_tool_non_https_url() {
    let mut config = sample_config();
    config.tools[0].url_template = "http://api.example.com/data".to_string();
    assert!(validate_config(&config).unwrap_err().contains("https://"));
}

#[test]
fn test_render_template_basic() {
    let params = ToolArgs { entries: vec![("city".to_string(), ArgValue::Str("Austin".to_string()))] };
    let result = render_template("https://api.example.com/weather?city={{city}}", &params, &[]);
    assert_eq!(result.unwrap(), "https://api.example.com/weather?city=Austin");
}

#[test]
fn test_render_template_numeric_param() {
    let params = ToolArgs {
        entries: vec![("limit".to_string(), ArgValue::Other { json: "10".to_string(), uint: Some(10), strings: None })],
    };
    let result = render_template("https://api.example.com/data?limit={{limit}}", &params, &[]);
    assert_eq!(result.unwrap(), "https://api.example.com/data?limit=10");
}

#[test]
fn test_render_template_secret_missing() {
    let params = ToolArgs { entries: vec![] };
    let result = render_template("https://api.example.com?key={{secret:mykey}}", &params, &[]);
    let err = result.unwrap_err();
    assert!(err.contains("secret is not configured"));
    assert!(!err.contains("mykey"));
}

#[test]
fn test_render_template_with_secret() {
    let params = ToolArgs { entries: vec![] };
    let vault = vec![("mykey".to_string(), "abc123".to_string())];
    let result = render_template("https://api.example.com?key={{secret:mykey}}", &params, &vault);
    assert_eq!(result.unwrap(), "https://api.example.com?key=abc123");
}

#[test]
fn test_extract_secret_keys_from_config() {
    let mut t = tool("get_weather", "https://api.weather.com?key={{secret:weather_api_key}}");
    t.headers = vec![("Authorization".to_string(), "Bearer {{secret:weather_token}}".to_string())];
    t.parameters = empty_json();
    let config = DynamicSkillConfig {
        id: "dynamic.weather".to_string(),
        name: "Weather".to_string(),
        description: "".to_string(),
        version: "1.0.0".to_string(),
        category: "API".to_string(),
        created_at: "2026-01-01T00:00:00Z".to_string(),
        tools: vec![t],
    };
    let keys = extract_secret_keys(&config);
    assert!(keys.contains(&"weather_api_key".to_string()));
    assert!(keys.contains(&"weather_token".to_string()));
}

#[test]
fn test_ssrf_blocks_private_ips() {
    assert!(validate_url_ssrf("https://127.0.0.1/api").is_err());
    assert!(validate_url_ssrf("https://10.0.0.1/api").is_err());
    assert!(validate_url_ssrf("https://192.168.1.1/api").is_err());
    assert!(validate_url_ssrf("https://172.16.0.1/api").is_err());
    assert!(validate_url_ssrf("https://169.254.169.254/latest/meta-data").is_err());
}

#[test]
fn test_ssrf_blocks_non_https() {
    assert!(validate_url_ssrf("http://example.com/api").is_err());
    assert!(validate_url_ssrf("ftp://example.com/file").is_err());
}

#[test]
fn test_ssrf_blocks_localhost() {
    assert!(validate_url_ssrf("https://localhost/api").is_err());
    assert!(validate_url_ssrf("https://foo.local/api").is_err());
    assert!(validate_url_ssrf("https://bar.internal/api").is_err());
}

#[test]
fn test_ssrf_allows_public_https() {
    assert!(validate_url_ssrf("https://api.openweathermap.org/data").is_ok());
    assert!(validate_url_ssrf("https://example.com/api").is_ok());
}

#[test]
fn ssrf_rejects_unparseable_url() {
    let e = validate_url_ssrf("not a url").unwrap_err();
    assert!(e.starts_with("Invalid URL: "));
}

#[test]
fn ssrf_blocks_ipv6_loopback() {
    assert!(validate_url_ssrf("https://[::1]/api").is_err());
}

#[test]
fn test_from_config_creates_manifest() {
    let m = dynamic_manifest(&sample_config()).unwrap();
    assert_eq!(m.id.0, "dynamic.test_api");
    assert_eq!(m.name, "Test API");
    assert_eq!(m.runtime, "Dynamic");
}

#[test]
fn template_without_placeholders_is_unchanged() {
    let params = ToolArgs { entries: vec![("x".to_string(), ArgValue::Str("y".to_string()))] };
    assert_eq!(render_template("https://a.example.com/p", &params, &[]).unwrap(), "https://a.example.com/p");
}

#[test]
fn prepare_request_renders_url_headers_and_body() {
    let mut t = tool("create", "https://api.example.com/items?q={{query}}");
    t.method = "post".to_string();
    t.headers = vec![("Authorization".to_string(), "Bearer {{secret:api_key}}".to_string())];
    t.body_template = Some("{\"q\":\"{{query}}\"}".to_string());
    let params = ToolArgs { entries: vec![("query".to_string(), ArgValue::Str("rust".to_string()))] };
    let vault = vec![("api_key".to_string(), "k123".to_string())];
    let req = prepare_request(&t, &params, &vault).unwrap();
    assert_eq!(req.method, HttpMethod::Post);
    assert_eq!(req.url, "https://api.example.com/items?q=rust");
    assert_eq!(req.headers, vec![("Authorization".to_string(), "Bearer k123".to_string())]);
    assert_eq!(req.body, Some("{\"q\":\"rust\"}".to_string()));
}

#[test]
fn prepare_request_refuses_what_cannot_be_sent() {
    let params = ToolArgs { entries: vec![] };
    let local = tool("t", "https://127.0.0.1/api");
    assert!(prepare_request(&local, &params, &[]).is_err());
    let mut secret = tool("t", "https://api.example.com/x");
    secret.headers = vec![("X-Key".to_string(), "{{secret:missing}}".to_string())];
    match prepare_request(&secret, &params, &[]) {
        Err(abigail::skill::SkillError::ToolFailed(m)) => assert!(m.contains("secret is not configured")),
        other => panic!("unexpected {:?}", other.map(|r| r.url)),
    }
    let mut patch = tool("t", "https://api.example.com/x");
    patch.method = "patch".to_string();
    match prepare_request(&patch, &params, &[]) {
        Err(abigail::skill::SkillError::ToolFailed(m)) => assert_eq!(m, "Unsupported method: PATCH"),
        other => panic!("unexpected {:?}", other.map(|r| r.url)),
    }
}

#[test]
fn dynamic_tools_are_found_by_name_and_flagged_by_method() {
    let config = sample_config();
    let name = config.tools[0].name.clone();
    assert_eq!(find_dynamic_tool(&config, &name).unwrap(), 0);
    match find_dynamic_tool(&config, "nope") {
        Err(abigail::skill::SkillError::ToolFailed(m)) => assert_eq!(m, "Unknown tool 'nope' in dynamic skill"),
        other => panic!("unexpected {:?}", other),
    }
    assert_eq!(dynamic_tool_flags("get"), (true, false));
    assert_eq!(dynamic_tool_flags("HEAD"), (true, false));
    assert_eq!(dynamic_tool_flags("post"), (false, true));
}

#[test]
fn secrets_holding_braces_render() {
    let params = ToolArgs { entries: vec![] };
    let vault = vec![("cred".to_string(), "{\"k\":1}".to_string())];
    let result = render_template("x={{secret:cred}}", &params, &vault);
    assert_eq!(result.unwrap(), "x={\"k\":1}");
}
