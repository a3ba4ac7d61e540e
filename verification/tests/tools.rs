use abigail::dynamic::DynamicToolConfig;
use abigail::factory::{
    check_tool_count, dynamic_config_file_name, factory_command, factory_manifest, format_secrets_toml, script_arguments,
    skill_toml, FactoryCommand,
};
use abigail::json_path::{dynamic_response, extract_json_path, DynamicResponse, JsonNode};
use abigail::mcp::{mcp_manifest, mcp_tool_spec, rpc_url, tool_call_outcome, McpTool, ToolResultContent};
use abigail::tool_args::{ArgValue, ToolArgs};

fn args(pairs: &[(&str, &str)]) -> ToolArgs {
    ToolArgs { entries: pairs.iter().map(|(k, v)| (k.to_string(), ArgValue::Str(v.to_string()))).collect() }
}

#[test]
fn mcp_tool_to_descriptor_maps_name_and_schema() {
    let t = McpTool {
        name: "test_tool".to_string(),
        description: Some("A test".to_string()),
        title: Some("Test Tool".to_string()),
        input_schema_json: Some(r#"{"type":"object","properties":{"x":{"type":"string"}}}"#.to_string()),
    };
    let d = mcp_tool_spec(&t);
    assert_eq!(d.name, "test_tool");
    assert_eq!(d.description, "A test");
    assert!(d.parameters_json.contains("\"type\":\"object\""));
    assert!(d.requires_confirmation);
}

#[test]
fn mcp_tool_description_falls_back_to_title_then_name() {
    let t = McpTool { name: "n".into(), description: None, title: Some("T".into()), input_schema_json: None };
    assert_eq!(mcp_tool_spec(&t).description, "T");
    let t = McpTool { name: "n".into(), description: None, title: None, input_schema_json: None };
    let d = mcp_tool_spec(&t);
    assert_eq!(d.description, "n");
    assert_eq!(d.parameters_json, r#"{"type":"object","properties":{}}"#);
}

#[test]
fn mcp_rpc_url_has_one_trailing_slash() {
    assert_eq!(rpc_url("http://localhost:9000//"), "http://localhost:9000/");
    assert_eq!(rpc_url("http://localhost:9000"), "http://localhost:9000/");
}

fn item(kind: &str, text: Option<&str>) -> ToolResultContent {
    ToolResultContent { content_type: kind.into(), text: text.map(String::from) }
}

#[test]
fn mcp_call_results() {
    let c = vec![item("text", Some("a")), item("image", Some("x")), item("text", Some("b"))];
    assert_eq!(tool_call_outcome(&c, false), Ok("a\nb".to_string()));
    assert_eq!(tool_call_outcome(&c, true), Err("a".to_string()));
    assert_eq!(tool_call_outcome(&vec![item("image", None)], true), Err("Unknown error".to_string()));
    assert_eq!(tool_call_outcome(&vec![], false), Ok(String::new()));
}

#[test]
fn mcp_manifest_fields() {
    let m = mcp_manifest("mcp.docs", "Docs");
    assert_eq!(m.description, "MCP server: Docs");
    assert_eq!(m.runtime, "MCP");
    assert_eq!(m.capabilities[0].capability_type, "McpClient");
}

#[test]
fn factory_decodes_commands() {
    let a = args(&[("id", "custom.x"), ("name", "X"), ("how_to_use_md", "use it")]);
    match factory_command("author_skill", &a).unwrap() {
        FactoryCommand::Author { id, description, format, required_secrets, .. } => {
            assert_eq!(id, "custom.x");
            assert_eq!(description, "");
            assert_eq!(format, "dynamic_api");
            assert!(required_secrets.is_none());
        }
        _ => panic!("expected author"),
    }
    assert_eq!(factory_command("author_skill", &args(&[("id", "x")])).unwrap_err(), "Missing 'name'");
    assert_eq!(factory_command("delete_skill", &args(&[])).unwrap_err(), "Missing 'id'");
    assert_eq!(factory_command("rename", &args(&[])).unwrap_err(), "Unknown tool: rename");
}

#[test]
fn factory_script_arguments() {
    assert_eq!(script_arguments(&args(&[("script_content", "print(1)")])).unwrap_err(), "Missing 'script_filename' for script format");
    assert_eq!(
        script_arguments(&args(&[("script_content", "c"), ("script_filename", "main.py")])).unwrap(),
        ("c".to_string(), "main.py".to_string())
    );
}

#[test]
fn factory_files() {
    assert_eq!(
        format_secrets_toml(&[("api_key".to_string(), "The \"main\" key".to_string())]),
        "\n[[secrets]]\nname = \"api_key\"\ndescription = \"The \\\"main\\\" key\"\nrequired = true\n"
    );
    let t = skill_toml("custom.x", "X", "d", &[]);
    assert_eq!(t, "[skill]\nid = \"custom.x\"\nname = \"X\"\nversion = \"0.1.0\"\ndescription = \"d\"\nruntime = \"Native\"\ncategory = \"Custom\"\n");
    assert_eq!(dynamic_config_file_name("dynamic.my.api"), "dynamic_my_api.json");
    assert!(check_tool_count(10).is_ok());
    assert_eq!(check_tool_count(11).unwrap_err(), "Maximum 10 tools per dynamic skill");
    assert_eq!(factory_manifest().id.0, "builtin.skill_factory");
}

fn num(t: &str) -> JsonNode {
    JsonNode::Number(t.to_string())
}

fn obj(members: Vec<(&str, JsonNode)>, json: &str) -> JsonNode {
    JsonNode::Object(members.into_iter().map(|(k, v)| (k.to_string(), v)).collect(), json.to_string())
}

#[test]
fn test_extract_json_path_simple() {
    let val = obj(vec![("main", obj(vec![("temp", num("72.5"))], r#"{"temp":72.5}"#))], r#"{"main":{"temp":72.5}}"#);
    match extract_json_path(&val, "main.temp") {
        Some(JsonNode::Number(t)) => assert_eq!(t, "72.5"),
        other => panic!("unexpected {:?}", other),
    }
}

#[test]
fn test_extract_json_path_array() {
    let inner = obj(vec![("description", JsonNode::Str("sunny".into()))], r#"{"description":"sunny"}"#);
    let val = obj(vec![("weather", JsonNode::Array(vec![inner], "[...]".into()))], "{...}");
    match extract_json_path(&val, "weather.0.description") {
        Some(JsonNode::Str(s)) => assert_eq!(s, "sunny"),
        other => panic!("unexpected {:?}", other),
    }
}

#[test]
fn test_extract_json_path_missing() {
    let val = obj(vec![("a", num("1"))], r#"{"a":1}"#);
    assert!(extract_json_path(&val, "b.c").is_none());
    // A numeric segment indexes arrays only.
    let val = obj(vec![("0", num("1"))], r#"{"0":1}"#);
    assert!(extract_json_path(&val, "0").is_none());
}

fn tool_with(extract: Vec<(&str, &str)>, format: Option<&str>) -> DynamicToolConfig {
    DynamicToolConfig {
        name: "get_weather".into(),
        description: String::new(),
        parameters: serde_json::from_str("{}").unwrap(),
        method: "GET".into(),
        url_template: "https://api.example.com".into(),
        headers: vec![],
        body_template: None,
        response_extract: extract.into_iter().map(|(a, b)| (a.to_string(), b.to_string())).collect(),
        response_format: format.map(String::from),
    }
}

#[test]
fn dynamic_responses() {
    let body = obj(vec![("main", obj(vec![("temp", num("72.5"))], "{}")), ("name", JsonNode::Str("Austin".into()))], "{}");
    let t = tool_with(vec![("temp", "main.temp"), ("city", "name"), ("gone", "x.y")], Some("{{city}}: {{temp}}F"));
    match dynamic_response(&t, true, "200 OK", "...", Some(&body)) {
        DynamicResponse::Formatted { formatted, extracted } => {
            assert_eq!(formatted, "Austin: 72.5F");
            assert_eq!(extracted.len(), 2);
        }
        other => panic!("unexpected {:?}", other),
    }
    match dynamic_response(&t, false, "404 Not Found", "nope", Some(&body)) {
        DynamicResponse::HttpError(e) => assert_eq!(e, "HTTP 404 Not Found error: nope"),
        other => panic!("unexpected {:?}", other),
    }
    match dynamic_response(&t, true, "200 OK", "plain text", None) {
        DynamicResponse::Raw(b) => assert_eq!(b, "plain text"),
        other => panic!("unexpected {:?}", other),
    }
    let plain = tool_with(vec![], None);
    assert!(matches!(dynamic_response(&plain, true, "200 OK", "{}", Some(&body)), DynamicResponse::Json(_)));
}
