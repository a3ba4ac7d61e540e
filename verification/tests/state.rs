use abigail::constraint_store::ConstraintStore;
use abigail::execution_state::{ExecutionState, StructuredFailure};

fn store() -> ConstraintStore {
    ConstraintStore::new("/tmp/abigail/constraints.json".to_string(), None)
}

#[test]
fn test_new_state() {
    let state = ExecutionState::new();
    assert!(state.attempts.is_empty());
    assert!(!state.complete);
    assert_eq!(state.failure_count(), 0);
    assert_eq!(state.success_count(), 0);
}

#[test]
fn test_record_attempts() {
    let mut state = ExecutionState::new();
    state.record_attempt(true, "First try worked", None);
    state.record_attempt(
        false,
        "Second try failed",
        Some(StructuredFailure::Timeout { operation: "test".into(), elapsed_ms: 5000, budget_ms: 3000 }),
    );
    assert_eq!(state.attempt_count(), 2);
    assert_eq!(state.success_count(), 1);
    assert_eq!(state.failure_count(), 1);
    assert!(state.last_failure().is_some());
    assert_eq!(state.attempts[1].attempt_number, 2);
}

#[test]
fn test_criteria_satisfaction() {
    let mut state = ExecutionState::new();
    let criteria = vec!["task done".to_string(), "output valid".to_string()];
    assert!(!state.all_criteria_met(&criteria));
    state.satisfy_criterion("task done");
    assert!(!state.all_criteria_met(&criteria));
    state.satisfy_criterion("output valid");
    assert!(state.all_criteria_met(&criteria));
}

#[test]
fn test_mark_complete() {
    let mut state = ExecutionState::new();
    state.mark_complete("All done");
    assert!(state.complete);
    assert_eq!(state.final_result, Some("All done".to_string()));
}

#[test]
fn test_add_constraint_deduplication() {
    let mut state = ExecutionState::new();
    state.add_constraint("API requires auth");
    state.add_constraint("API requires auth");
    assert_eq!(state.discovered_constraints.len(), 1);
}

#[test]
fn retryable_failures() {
    assert!(StructuredFailure::Timeout { operation: "x".into(), elapsed_ms: 1, budget_ms: 1 }.is_retryable());
    assert!(!StructuredFailure::AuthenticationFailed { provider: "p".into(), hint: "h".into() }.is_retryable());
    assert!(!StructuredFailure::ConnectionFailed { endpoint: "e".into(), cause: "c".into(), retry_eligible: false }.is_retryable());
}

#[test]
fn test_new_empty_store() {
    let s = store();
    assert!(s.all().is_empty());
    assert!(s.as_strings().is_empty());
}

#[test]
fn test_as_strings_empty() {
    assert!(store().as_strings().is_empty());
}

#[test]
fn test_add_constraint() {
    let mut s = store();
    let id = s.add("API requires auth token", "HTTP 401 on attempt #1");
    assert!(!id.is_empty());
    assert_eq!(s.all().len(), 1);
    let c = &s.all()[0];
    assert_eq!(c.id, id);
    assert_eq!(c.description, "API requires auth token");
    assert_eq!(c.learned_from, "HTTP 401 on attempt #1");
    assert!(!c.created_at.is_empty());
}

#[test]
fn constraint_ids_are_uuids_and_times_are_rfc3339() {
    let mut s = store();
    let id = s.add("d", "l");
    assert_eq!(id.len(), 36);
    assert_eq!(id.matches('-').count(), 4);
    assert!(id.chars().all(|c| c == '-' || c.is_ascii_digit() || ('a'..='f').contains(&c)));
    let t = &s.all()[0].created_at;
    assert!(t.ends_with("+00:00"));
    let b = t.as_bytes();
    assert_eq!((b[4], b[7], b[10], b[13], b[16]), (b'-', b'-', b'T', b':', b':'));
}

#[test]
fn test_add_multiple_constraints() {
    let mut s = store();
    let id1 = s.add("Rate limit is 100/min", "HTTP 429");
    let id2 = s.add("Response must be JSON", "Parse error on attempt #2");
    assert_ne!(id1, id2);
    assert_eq!(s.all().len(), 2);
}

#[test]
fn test_remove_constraint() {
    let mut s = store();
    let id = s.add("Temporary constraint", "test");
    assert_eq!(s.all().len(), 1);
    assert!(s.remove(&id));
    assert!(s.all().is_empty());
}

#[test]
fn test_remove_nonexistent_constraint() {
    let mut s = store();
    s.add("Keep me", "test");
    assert!(!s.remove("nonexistent-id"));
    assert_eq!(s.all().len(), 1);
}

#[test]
fn test_clear() {
    let mut s = store();
    s.add("Constraint A", "failure A");
    s.add("Constraint B", "failure B");
    assert_eq!(s.all().len(), 2);
    s.clear();
    assert!(s.all().is_empty());
}

#[test]
fn test_as_strings() {
    let mut s = store();
    s.add("First constraint", "failure 1");
    s.add("Second constraint", "failure 2");
    s.add("Third constraint", "failure 3");
    let strings = s.as_strings();
    assert_eq!(strings, vec!["First constraint", "Second constraint", "Third constraint"]);
}

#[test]
fn test_constraint_id_is_uuid() {
    let mut s = store();
    let id = s.add("Test", "test");
    assert_eq!(id.len(), 36);
    assert_eq!(id.chars().filter(|c| *c == '-').count(), 4);
}

#[test]
fn test_constraint_created_at_is_iso8601() {
    let mut s = store();
    s.add("Test", "test");
    let created_at = &s.all()[0].created_at;
    assert!(chrono::DateTime::parse_from_rfc3339(created_at).is_ok());
}

#[test]
fn store_keeps_its_path_and_loaded_constraints() {
    let mut first = store();
    first.add("Pre-existing constraint", "from previous session");
    let loaded = first.all().to_vec();
    let s = ConstraintStore::new("/tmp/x.json".to_string(), Some(loaded));
    assert_eq!(s.file_path(), "/tmp/x.json");
    assert_eq!(s.all()[0].description, "Pre-existing constraint");
    assert!(s.has("Pre-existing constraint"));
}
