use abigail::dynamic::{DynamicSkillConfig, DynamicToolConfig};
use abigail::instruction_registry::InstructionRegistry;
use abigail::preloaded::preloaded_secret_keys;
use abigail::sandbox::domain_matches_allowed;
use abigail::transport::{ImapClient, ImapTlsMode, SmtpClient, SmtpTlsMode};
use abigail::watcher::is_skill_file;

#[test]
fn test_empty_registry() {
    let reg = InstructionRegistry::empty();
    assert!(reg.list_entries().is_empty());
    assert!(reg.select_instructions("anything").is_empty());
    assert!(reg.format_for_prompt("anything").is_empty());
}

fn http_tool(name: &str, url: &str, headers: Vec<(String, String)>) -> DynamicToolConfig {
    DynamicToolConfig {
        name: name.to_string(),
        description: String::new(),
        parameters: serde_json::from_str("{}").unwrap(),
        method: "GET".to_string(),
        url_template: url.to_string(),
        headers,
        body_template: None,
        response_extract: vec![],
        response_format: None,
    }
}

fn integration(id: &str, tools: Vec<DynamicToolConfig>) -> DynamicSkillConfig {
    DynamicSkillConfig {
        id: id.to_string(),
        name: id.to_string(),
        description: String::new(),
        version: "1.0.0".to_string(),
        category: "Integration".to_string(),
        created_at: String::new(),
        tools,
    }
}

fn bearer(secret: &str) -> Vec<(String, String)> {
    vec![("Authorization".to_string(), format!("Bearer {{{{secret:{}}}}}", secret))]
}

#[test]
fn test_preloaded_secret_keys_aggregated() {
    let configs = vec![
        integration(
            "dynamic.github_api",
            vec![
                http_tool("github_list_repos", "https://api.github.com/user/repos", bearer("github_token")),
                http_tool("github_list_issues", "https://api.github.com/issues", bearer("github_token")),
            ],
        ),
        integration("dynamic.slack", vec![http_tool("slack_list_channels", "https://slack.com/api/conversations.list", bearer("slack_bot_token"))]),
        integration(
            "dynamic.jira",
            vec![http_tool(
                "jira_search_issues",
                "https://{{secret:jira_domain}}/rest/api/3/search",
                vec![("Authorization".to_string(), "Basic {{secret:jira_basic_auth}}".to_string())],
            )],
        ),
    ];
    let keys = preloaded_secret_keys(&configs);
    assert!(keys.contains(&"github_token".to_string()));
    assert!(keys.contains(&"slack_bot_token".to_string()));
    assert!(keys.contains(&"jira_basic_auth".to_string()));
    assert!(keys.contains(&"jira_domain".to_string()));
    // Sorted, each key once.
    assert_eq!(keys, vec!["github_token", "jira_basic_auth", "jira_domain", "slack_bot_token"]);
}

#[test]
fn domain_match_allows_exact_and_subdomain() {
    assert!(domain_matches_allowed("api.example.com", "api.example.com"));
    assert!(domain_matches_allowed("v1.api.example.com", "api.example.com"));
    assert!(domain_matches_allowed("api.example.com.", "api.example.com"));
}

#[test]
fn domain_match_rejects_suffix_impersonation() {
    assert!(!domain_matches_allowed("evil-api.example.com", "api.example.com"));
    assert!(!domain_matches_allowed("api.example.com.evil", "api.example.com"));
}

#[test]
fn domain_match_ignores_case_and_rejects_empty() {
    assert!(domain_matches_allowed("API.Example.COM", "api.example.com"));
    assert!(!domain_matches_allowed("", "api.example.com"));
    assert!(!domain_matches_allowed("...", "..."));
}

#[test]
fn default_tls_mode_is_implicit() {
    assert_eq!(ImapClient::new("localhost", 143, "", "").tls_mode(), ImapTlsMode::Implicit);
}

#[test]
fn with_tls_mode_overrides_default() {
    assert_eq!(
        ImapClient::new("mail.example.com", 143, "", "").with_tls_mode(ImapTlsMode::StartTls).tls_mode(),
        ImapTlsMode::StartTls
    );
}

#[test]
fn smtp_default_tls_mode_is_starttls() {
    let c = SmtpClient::new("smtp.example.com", 587, "u", "p");
    assert_eq!(c.tls_mode(), SmtpTlsMode::StartTls);
    assert_eq!(c.with_tls_mode(SmtpTlsMode::Implicit).tls_mode(), SmtpTlsMode::Implicit);
}

#[test]
fn test_is_skill_file_matches_toml() {
    assert!(is_skill_file("skill.toml"));
}

#[test]
fn test_is_skill_file_matches_json() {
    assert!(is_skill_file("dynamic.weather.json"));
    assert!(is_skill_file("custom_api.json"));
}

#[test]
fn test_is_skill_file_rejects_others() {
    assert!(!is_skill_file("readme.md"));
    assert!(!is_skill_file("config.toml"));
    assert!(!is_skill_file("Cargo.toml"));
    assert!(!is_skill_file("data.csv"));
}
