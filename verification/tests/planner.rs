use abigail::planner::{plan_from_text, strip_markdown_fences, GoalFrame};

#[test]
fn test_goal_frame_default() {
    let frame = GoalFrame::default();
    assert!(frame.intent.is_empty());
    assert!(frame.done_criteria.is_empty());
    assert!(!frame.has_done_criteria());
    assert_eq!(frame.max_iterations, 10);
    assert_eq!(frame.time_budget_ms, 120_000);
}

#[test]
fn test_goal_frame_has_done_criteria() {
    let mut frame = GoalFrame::default();
    assert!(!frame.has_done_criteria());
    frame.done_criteria.push("task complete".to_string());
    assert!(frame.has_done_criteria());
}

#[test]
fn test_plan_from_text_basic() {
    let frame = plan_from_text("What is the weather in Austin?");
    assert_eq!(frame.intent, "What is the weather in Austin?");
    assert!(!frame.done_criteria.is_empty());
    assert!(!frame.good_criteria.is_empty());
    assert!(!frame.abort_conditions.is_empty());
    assert_eq!(frame.max_iterations, 10);
    assert_eq!(frame.time_budget_ms, 120_000);
}

#[test]
fn test_plan_from_text_truncates_long_request() {
    let long_request = "a".repeat(300);
    let frame = plan_from_text(&long_request);
    assert!(frame.intent.len() < 210);
    assert!(frame.intent.ends_with("..."));
}

#[test]
fn test_plan_from_text_trims_whitespace() {
    let frame = plan_from_text("  hello world  ");
    assert_eq!(frame.intent, "hello world");
}

#[test]
fn plan_from_text_done_criterion_names_the_intent() {
    let frame = plan_from_text("book a table");
    assert_eq!(frame.done_criteria, vec!["Successfully address: book a table".to_string()]);
}

#[test]
fn test_strip_markdown_fences_json() {
    let input = "```json\n{\"key\": \"value\"}\n```";
    assert_eq!(strip_markdown_fences(input), r#"{"key": "value"}"#);
}

#[test]
fn test_strip_markdown_fences_plain() {
    let input = "```\n{\"key\": \"value\"}\n```";
    assert_eq!(strip_markdown_fences(input), r#"{"key": "value"}"#);
}

#[test]
fn test_strip_markdown_fences_no_fences() {
    let input = r#"{"key": "value"}"#;
    assert_eq!(strip_markdown_fences(input), input);
}

#[test]
fn test_strip_markdown_fences_whitespace() {
    let input = "  ```json\n{\"a\": 1}\n```  ";
    assert_eq!(strip_markdown_fences(input), r#"{"a": 1}"#);
}

fn msg(role: &str, content: &str) -> abigail::agentic::ChatMessage {
    abigail::agentic::ChatMessage { role: role.into(), content: content.into() }
}

#[test]
fn test_plan_with_no_user_messages_errors() {
    let err = abigail::planner::planning_prompt(&[msg("assistant", "Hello!")], &[]).unwrap_err();
    assert!(err.contains("No user messages"));
}

#[test]
fn test_plan_with_constraints() {
    let constraints = vec!["No network access".to_string(), "Read-only filesystem".to_string()];
    let (request, prompt) = abigail::planner::planning_prompt(&[msg("user", "Do something")], &constraints).unwrap();
    assert_eq!(request, "Do something");
    assert!(prompt.contains("User request:\nDo something\n\nActive constraints:\n- No network access\n- Read-only filesystem\n\nRespond with ONLY"));
}

#[test]
fn test_plan_concatenates_multiple_user_messages() {
    let messages = [msg("user", "First, find the file."), msg("assistant", "Okay, looking..."), msg("user", "Then summarize it.")];
    let (request, prompt) = abigail::planner::planning_prompt(&messages, &[]).unwrap();
    assert_eq!(request, "First, find the file.\nThen summarize it.");
    assert!(prompt.ends_with("\"time_budget_ms\": 120000\n}"));
}

#[test]
fn test_plan_with_unparseable_response_falls_back() {
    let (request, _) = abigail::planner::planning_prompt(&[msg("user", "Find the weather")], &[]).unwrap();
    let frame = plan_from_text(&request);
    assert!(frame.intent.contains("Find the weather"));
    assert!(!frame.done_criteria.is_empty());
    assert_eq!(frame.max_iterations, 10);
}

#[test]
fn plan_from_text_cuts_at_a_character_boundary() {
    let request = "€".repeat(100);
    let frame = plan_from_text(&request);
    assert_eq!(frame.intent, format!("{}...", "€".repeat(66)));
    assert_eq!(frame.done_criteria, vec![format!("Successfully address: {}", frame.intent)]);
    assert_eq!(frame.max_iterations, 10);
    assert_eq!(frame.time_budget_ms, 120_000);
}
