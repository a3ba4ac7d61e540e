use abigail::agentic::ChatMessage;
use abigail::council::{council_question, critique_prompt, plan_reviews, synthesis_prompt, with_system_context};

fn msg(role: &str, content: &str) -> ChatMessage {
    ChatMessage { role: role.to_string(), content: content.to_string() }
}

fn names(v: &[&str]) -> Vec<String> {
    v.iter().map(|s| s.to_string()).collect()
}

#[test]
fn no_provider_reviews_its_own_draft() {
    let pairs = plan_reviews(&names(&["a", "c"]), &names(&["a", "b", "c"]));
    assert_eq!(pairs, vec![(0, 1), (0, 2), (1, 0), (1, 1)]);
    assert!(plan_reviews(&names(&[]), &names(&["a"])).is_empty());
}

#[test]
fn critique_prompt_names_question_provider_and_draft() {
    let p = critique_prompt("Why?", "openai", "Because.");
    assert_eq!(
        p,
        "You are a critical judge. The user asked:\n\"Why?\"\n\nProvider \"openai\" answered:\n\"Because.\"\n\nScore this answer from 0 to 10 on accuracy, completeness, and helpfulness.\nRespond with ONLY a JSON object: {\"score\": <number>}\nDo not include any other text."
    );
}

#[test]
fn synthesis_prompt_lists_ranked_drafts() {
    let drafts = vec![
        ("b".to_string(), "Second".to_string(), "9.0/10".to_string()),
        ("a".to_string(), "First".to_string(), "unscored".to_string()),
    ];
    let p = synthesis_prompt("Q", &drafts);
    assert_eq!(
        p,
        "You are a synthesis expert. The user asked:\n\"Q\"\n\nMultiple experts have provided answers, ranked by peer review score (highest first):\n\n--- Draft 1 (from 'b', score: 9.0/10) ---\nSecond\n\n--- Draft 2 (from 'a', score: unscored) ---\nFirst\n\nProduce a single, authoritative answer that combines the best elements from the top-scoring drafts. Be concise and accurate. Do not mention the drafts or the scoring process in your answer."
    );
}

#[test]
fn council_question_joins_user_messages() {
    let m = vec![msg("system", "ctx"), msg("user", "one"), msg("assistant", "x"), msg("user", "two")];
    assert_eq!(council_question(&m), "one\ntwo");
    let r = with_system_context(Some("be brief"), &m[1..2]);
    assert_eq!(r.len(), 2);
    assert_eq!(r[0].role, "system");
    assert_eq!(r[0].content, "be brief");
    assert_eq!(r[1].content, "one");
    assert_eq!(with_system_context(None, &m).len(), 4);
}
