use abigail::instruction_registry::{InstructionRegistry, SkillInstructionEntry};

fn entry(id: &str, file: &str, keywords: &[&str], topics: &[&str]) -> SkillInstructionEntry {
    SkillInstructionEntry {
        id: id.to_string(),
        instruction_file: file.to_string(),
        keywords: keywords.iter().map(|k| k.to_string()).collect(),
        topics: topics.iter().map(|t| t.to_string()).collect(),
        enabled: true,
    }
}

fn registry(items: Vec<(SkillInstructionEntry, Option<&str>)>) -> InstructionRegistry {
    let items: Vec<(SkillInstructionEntry, Option<String>)> =
        items.into_iter().map(|(e, c)| (e, c.map(String::from))).collect();
    InstructionRegistry::from_entries(&items)
}

fn ids(v: &[&str]) -> Vec<String> {
    v.iter().map(|s| s.to_string()).collect()
}

#[test]
fn test_registry_loads_and_injects_instructions() {
    let reg = registry(vec![
        (entry("test.tasks", "tasks.md", &["tasks", "queue"], &[]), Some("# Tasks Instructions\nUse list_tasks.")),
        (entry("test.search", "search.md", &["search", "look up"], &[]), Some("# Search Instructions\nUse web_search.")),
    ]);
    let matches = reg.select_instructions("check my tasks");
    assert_eq!(matches.len(), 1);
    assert_eq!(matches[0].0, "test.tasks");
    assert!(matches[0].1.contains("list_tasks"));
    let matches = reg.select_instructions("search for Rust tutorials");
    assert_eq!(matches.len(), 1);
    assert_eq!(matches[0].0, "test.search");
    assert_eq!(reg.select_instructions("search my tasks queue").len(), 2);
    let prompt = reg.format_for_prompt("check my tasks");
    assert!(prompt.contains("## Skill-Specific Instructions"));
    assert!(prompt.contains("test.tasks"));
    assert!(reg.format_for_prompt("tell me a joke").is_empty());
}

#[test]
fn test_format_for_prompt_filtered_drops_unregistered() {
    let reg = registry(vec![
        (entry("test.tasks", "tasks.md", &["tasks"], &[]), Some("# Tasks\nUse list_tasks.")),
        (entry("test.search", "search.md", &["tasks"], &[]), Some("# Search\nUse web_search.")),
    ]);
    let prompt = reg.format_for_prompt_filtered("check tasks", &ids(&["test.tasks"]));
    assert!(prompt.contains("test.tasks"));
    assert!(!prompt.contains("test.search"));
}

#[test]
fn test_format_for_prompt_filtered_passes_registered() {
    let reg = registry(vec![(entry("test.tasks", "tasks.md", &["tasks"], &[]), Some("# Tasks\nUse list_tasks."))]);
    let prompt = reg.format_for_prompt_filtered("check tasks", &ids(&["test.tasks"]));
    assert!(prompt.contains("test.tasks"));
    assert!(prompt.contains("## Skill-Specific Instructions"));
}

#[test]
fn test_format_for_prompt_filtered_empty_registry() {
    let reg = registry(vec![(entry("test.tasks", "tasks.md", &["tasks"], &[]), Some("# Tasks\nUse list_tasks."))]);
    assert!(reg.format_for_prompt_filtered("check tasks", &vec![]).is_empty());
}

#[test]
fn test_format_for_prompt_budgeted_limits_count() {
    let reg = registry(vec![
        (entry("test.tasks", "tasks.md", &["tasks"], &[]), Some("# Tasks\nUse list_tasks.")),
        (entry("test.calendar", "calendar.md", &["tasks"], &[]), Some("# Calendar\nUse list_events.")),
        (entry("test.search", "search.md", &["tasks"], &[]), Some("# Search\nUse web_search.")),
    ]);
    let prompt = reg.format_for_prompt_budgeted("check tasks", &ids(&["test.tasks", "test.calendar", "test.search"]), 1, 8192);
    assert!(prompt.contains("## Skill-Specific Instructions"));
    assert_eq!(prompt.matches("<!-- skill:").count(), 1);
}

#[test]
fn test_format_for_prompt_budgeted_limits_bytes() {
    let big = "x".repeat(200);
    let reg = registry(vec![
        (entry("test.big", "big.md", &["data"], &[]), Some(big.as_str())),
        (entry("test.small", "small.md", &["data"], &[]), Some("tiny")),
    ]);
    let prompt = reg.format_for_prompt_budgeted("data query", &ids(&["test.big", "test.small"]), 10, 100);
    assert!(prompt.matches("<!-- skill:").count() <= 1);
}

#[test]
fn test_format_for_prompt_budgeted_specificity_ordering() {
    let reg = registry(vec![
        (entry("test.generic", "generic.md", &["tasks"], &[]), Some("# Generic\nGeneric handler.")),
        (entry("test.specific", "specific.md", &["check tasks queue"], &[]), Some("# Specific\nSpecific handler.")),
    ]);
    let prompt = reg.format_for_prompt_budgeted("check tasks queue", &ids(&["test.generic", "test.specific"]), 1, 8192);
    assert!(prompt.contains("test.specific"));
}

#[test]
fn test_format_for_prompt_budgeted_zero_limits() {
    let reg = registry(vec![(entry("test.tasks", "tasks.md", &["tasks"], &[]), Some("# Tasks\nContent."))]);
    assert!(reg.format_for_prompt_budgeted("tasks", &ids(&["test.tasks"]), 0, 8192).is_empty());
    assert!(reg.format_for_prompt_budgeted("tasks", &ids(&["test.tasks"]), 10, 0).is_empty());
}

#[test]
fn test_registry_missing_instruction_file() {
    let reg = registry(vec![
        (entry("test.missing", "nonexistent.md", &["missing"], &[]), None),
        (entry("test.present", "present.md", &["present"], &[]), Some("# Present\nHere.")),
    ]);
    assert_eq!(reg.list_entries().len(), 1);
    assert!(reg.select_instructions("missing keyword").is_empty());
    assert_eq!(reg.select_instructions("present keyword").len(), 1);
}

#[test]
fn test_select_instructions_for_delegation_keyword_match() {
    let reg = registry(vec![
        (entry("test.tasks", "tasks.md", &["tasks", "queue"], &[]), Some("# Tasks\nUse list_tasks.")),
        (entry("test.search", "search.md", &["search"], &[]), Some("# Search\nUse web_search.")),
    ]);
    let matched = reg.select_instructions_for_delegation("check tasks", &ids(&["test.tasks", "test.search"]));
    assert_eq!(matched.len(), 1);
    assert_eq!(matched[0].0, "test.tasks");
}

#[test]
fn test_select_instructions_for_delegation_topic_match() {
    let reg = registry(vec![
        (entry("test.tasks", "tasks.md", &["tasks"], &["workflow", "operations"]), Some("# Tasks\nUse list_tasks.")),
        (entry("test.search", "search.md", &["search"], &["research"]), Some("# Search\nUse web_search.")),
    ]);
    let matched = reg.select_instructions_for_delegation("handle workflow coordination", &ids(&["test.tasks", "test.search"]));
    assert_eq!(matched.len(), 1);
    assert_eq!(matched[0].0, "test.tasks");
}

#[test]
fn test_select_instructions_for_delegation_filters_unregistered() {
    let reg = registry(vec![
        (entry("test.tasks", "tasks.md", &["tasks"], &[]), Some("# Tasks\nContent.")),
        (entry("test.search", "search.md", &["tasks"], &[]), Some("# Search\nContent.")),
    ]);
    let matched = reg.select_instructions_for_delegation("tasks stuff", &ids(&["test.tasks"]));
    assert_eq!(matched.len(), 1);
    assert_eq!(matched[0].0, "test.tasks");
}

#[test]
fn test_format_for_delegation() {
    let reg = registry(vec![(entry("test.tasks", "tasks.md", &["tasks"], &[]), Some("# Tasks\nUse list_tasks."))]);
    let section = reg.format_for_delegation("check tasks", &ids(&["test.tasks"]));
    assert!(section.contains("## Skill-Specific Instructions"));
    assert!(section.contains("test.tasks"));
    assert!(section.contains("list_tasks"));
    assert!(reg.format_for_delegation("unrelated query", &ids(&["test.tasks"])).is_empty());
}

#[test]
fn test_topics_field_defaults_empty() {
    let reg = registry(vec![(entry("test.notopics", "notopics.md", &["test"], &[]), Some("# No topics\nContent."))]);
    let entries = reg.list_entries();
    assert_eq!(entries.len(), 1);
    assert!(entries[0].topics.is_empty());
}

#[test]
fn later_entry_with_same_id_wins_and_disabled_are_skipped() {
    let mut disabled = entry("test.off", "off.md", &["off"], &[]);
    disabled.enabled = false;
    let reg = registry(vec![
        (entry("test.a", "a1.md", &["one"], &[]), Some("first")),
        (entry("test.a", "a2.md", &["two"], &[]), Some("second")),
        (disabled, Some("never")),
    ]);
    assert_eq!(reg.list_entries().len(), 1);
    assert!(reg.select_instructions("one").is_empty());
    assert_eq!(reg.select_instructions("two")[0].1, "second");
}

#[test]
fn budget_skips_a_block_that_does_not_fit_and_keeps_a_later_one() {
    let big = "x".repeat(200);
    let reg = registry(vec![
        (entry("test.big", "big.md", &["data"], &[]), Some(big.as_str())),
        (entry("test.small", "small.md", &["data"], &[]), Some("tiny")),
    ]);
    let prompt = reg.format_for_prompt_budgeted("data query", &ids(&["test.big", "test.small"]), 10, 100);
    assert_eq!(prompt.matches("<!-- skill:").count(), 1);
    assert!(prompt.contains("<!-- skill: test.small -->"));
}
