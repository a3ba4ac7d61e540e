use abigail::conscience::{evaluate, has_destructive_patterns, has_pii_patterns, ConscienceRequest, EthicalCategory, Severity};

fn chars(s: &str) -> Vec<char> {
    s.chars().collect()
}

fn request(id: &str, content: &str, context: &str) -> ConscienceRequest {
    ConscienceRequest { request_id: id.into(), content: content.into(), context: context.into(), metadata: vec![] }
}

#[test]
fn test_pii_email_detection() {
    assert!(has_pii_patterns(&chars("please email john@example.com")));
    assert!(!has_pii_patterns(&chars("just a normal message")));
}

#[test]
fn test_pii_ssn_detection() {
    assert!(has_pii_patterns(&chars("my ssn is 123-45-6789")));
    assert!(!has_pii_patterns(&chars("my number is 12345")));
}

#[test]
fn test_destructive_patterns() {
    assert!(has_destructive_patterns(&chars("please drop table users")));
    assert!(has_destructive_patterns(&chars("run rm -rf /")));
    assert!(!has_destructive_patterns(&chars("please summarize this document")));
}

#[test]
fn test_evaluate_clean_message() {
    let signals = evaluate(&request("test-1", "What is the weather today?", "chat_message"));
    assert!(signals.is_empty());
}

#[test]
fn test_evaluate_pii_message() {
    let signals = evaluate(&request("test-2", "Send this to alice@corp.com", "chat_message"));
    assert_eq!(signals.len(), 1);
    assert_eq!(signals[0].category, EthicalCategory::Pii);
    assert!(!signals[0].should_block);
}

#[test]
fn test_evaluate_destructive_message() {
    let signals = evaluate(&request("test-3", "Please drop table users from the database", "tool_execution"));
    assert_eq!(signals.len(), 1);
    assert_eq!(signals[0].category, EthicalCategory::Destructive);
    assert!(signals[0].should_block);
    assert_eq!(signals[0].severity, Severity::Critical);
}

#[test]
fn test_evaluate_multiple_flags() {
    let signals = evaluate(&request("test-4", "delete all records for user@example.com", "tool_execution"));
    assert_eq!(signals.len(), 2);
    assert_eq!(signals[0].category, EthicalCategory::Pii);
    assert_eq!(signals[1].category, EthicalCategory::Destructive);
    assert!(signals.iter().all(|s| s.request_id == "test-4"));
}

#[test]
fn destructive_match_ignores_case() {
    let signals = evaluate(&request("r", "DROP TABLE accounts", "tool_execution"));
    assert_eq!(signals.len(), 1);
}
