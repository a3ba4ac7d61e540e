use abigail::constraint_store::ConstraintStore;
use abigail::execution_state::StructuredFailure;
use abigail::governor::{ExecutionGovernor, GovernedResult, GovernorStrategy};
use abigail::planner::GoalFrame;

fn simple_goal() -> GoalFrame {
    GoalFrame {
        intent: "Test task".to_string(),
        done_criteria: vec!["result contains answer".to_string()],
        good_criteria: vec!["result is concise".to_string()],
        risk_assessment: "None".to_string(),
        suggested_approach: "Just do it".to_string(),
        abort_conditions: vec!["total failure".to_string()],
        max_iterations: 5,
        time_budget_ms: 120_000,
    }
}

fn empty_constraints() -> ConstraintStore {
    ConstraintStore::in_memory()
}

fn connection_failure() -> StructuredFailure {
    StructuredFailure::ConnectionFailed {
        endpoint: "api.example.com".into(),
        cause: "timeout".into(),
        retry_eligible: true,
    }
}

#[test]
fn test_new_governor() {
    let gov = ExecutionGovernor::new(simple_goal(), empty_constraints());
    assert_eq!(gov.strategy(), &GovernorStrategy::Initial);
    assert_eq!(gov.attempts(), 0);
    assert!(gov.should_continue());
}

#[test]
fn test_new_governor_with_constraints() {
    let mut constraints = ConstraintStore::in_memory();
    constraints.add_hard("no network", None);
    let gov = ExecutionGovernor::new(simple_goal(), constraints);
    assert!(gov.constraints().has("no network"));
}

#[test]
fn test_should_continue_stops_when_complete() {
    let mut gov = ExecutionGovernor::new(simple_goal(), empty_constraints());
    gov.mark_complete("done");
    assert!(!gov.should_continue());
}

#[test]
fn test_should_continue_stops_at_abort() {
    let mut gov = ExecutionGovernor::new(simple_goal(), empty_constraints());
    gov.set_strategy(GovernorStrategy::Abort);
    assert!(!gov.should_continue());
}

#[test]
fn test_should_continue_stops_at_max_iterations() {
    let mut goal = simple_goal();
    goal.max_iterations = 2;
    let mut gov = ExecutionGovernor::new(goal, empty_constraints());
    gov.record_attempt(false, "fail 1");
    gov.record_attempt(false, "fail 2");
    assert!(!gov.should_continue());
}

#[test]
fn test_should_continue_stops_when_time_exceeded() {
    let mut goal = simple_goal();
    goal.time_budget_ms = 0;
    let gov = ExecutionGovernor::new(goal, empty_constraints());
    assert!(!gov.should_continue());
}

#[test]
fn test_advance_from_initial_to_retry() {
    let mut gov = ExecutionGovernor::new(simple_goal(), empty_constraints());
    gov.record_failure(&StructuredFailure::Timeout { operation: "test".into(), elapsed_ms: 5000, budget_ms: 3000 });
    gov.advance_strategy();
    assert_eq!(gov.strategy(), &GovernorStrategy::Retry(1));
}

#[test]
fn test_advance_from_initial_to_alternative_on_non_retryable() {
    let mut gov = ExecutionGovernor::new(simple_goal(), empty_constraints());
    gov.record_failure(&StructuredFailure::AuthenticationFailed { provider: "openai".into(), hint: "Invalid key".into() });
    gov.advance_strategy();
    assert_eq!(gov.strategy(), &GovernorStrategy::Alternative);
}

#[test]
fn test_advance_through_retries_to_alternative() {
    let mut gov = ExecutionGovernor::new(simple_goal(), empty_constraints());
    gov.record_failure(&connection_failure());
    gov.advance_strategy();
    assert_eq!(gov.strategy(), &GovernorStrategy::Retry(1));
    gov.record_failure(&connection_failure());
    gov.advance_strategy();
    assert_eq!(gov.strategy(), &GovernorStrategy::Retry(2));
    gov.record_failure(&connection_failure());
    gov.advance_strategy();
    assert_eq!(gov.strategy(), &GovernorStrategy::Retry(3));
    gov.record_failure(&connection_failure());
    gov.advance_strategy();
    assert_eq!(gov.strategy(), &GovernorStrategy::Alternative);
}

#[test]
fn test_advance_alternative_to_escalate() {
    let mut gov = ExecutionGovernor::new(simple_goal(), empty_constraints());
    gov.set_strategy(GovernorStrategy::Alternative);
    gov.record_attempt(false, "alternative failed");
    gov.advance_strategy();
    assert_eq!(gov.strategy(), &GovernorStrategy::Escalate);
}

#[test]
fn test_advance_escalate_to_abort() {
    let mut gov = ExecutionGovernor::new(simple_goal(), empty_constraints());
    gov.set_strategy(GovernorStrategy::Escalate);
    gov.record_attempt(false, "escalation failed");
    gov.advance_strategy();
    assert_eq!(gov.strategy(), &GovernorStrategy::Abort);
}

#[test]
fn test_abort_is_terminal() {
    let mut gov = ExecutionGovernor::new(simple_goal(), empty_constraints());
    gov.set_strategy(GovernorStrategy::Abort);
    gov.advance_strategy();
    assert_eq!(gov.strategy(), &GovernorStrategy::Abort);
}

#[test]
fn test_record_attempt_increments_count() {
    let mut gov = ExecutionGovernor::new(simple_goal(), empty_constraints());
    gov.record_attempt(true, "worked");
    assert_eq!(gov.attempts(), 1);
    gov.record_attempt(false, "failed");
    assert_eq!(gov.attempts(), 2);
}

#[test]
fn test_record_failure_discovers_permission_constraint() {
    let mut gov = ExecutionGovernor::new(simple_goal(), empty_constraints());
    gov.record_failure(&StructuredFailure::PermissionDenied {
        resource: "/etc/shadow".into(),
        action: "read".into(),
        recovery: "use sudo".into(),
    });
    assert!(gov.constraints().has("Cannot read on /etc/shadow"));
    assert_eq!(gov.state().discovered_constraints.len(), 1);
}

#[test]
fn test_record_failure_discovers_auth_constraint() {
    let mut gov = ExecutionGovernor::new(simple_goal(), empty_constraints());
    gov.record_failure(&StructuredFailure::AuthenticationFailed { provider: "anthropic".into(), hint: "Key expired".into() });
    assert!(gov.constraints().has("No valid credentials for anthropic"));
}

#[test]
fn test_record_failure_discovers_resource_constraint() {
    let mut gov = ExecutionGovernor::new(simple_goal(), empty_constraints());
    gov.record_failure(&StructuredFailure::ResourceNotFound {
        resource_type: "File".into(),
        identifier: "data.csv".into(),
        suggestions: vec![],
    });
    assert!(gov.constraints().has("File 'data.csv' does not exist"));
}

#[test]
fn test_record_failure_no_constraint_for_timeout() {
    let mut gov = ExecutionGovernor::new(simple_goal(), empty_constraints());
    let initial_count = gov.constraints().len();
    gov.record_failure(&StructuredFailure::Timeout { operation: "llm_call".into(), elapsed_ms: 30000, budget_ms: 30000 });
    assert_eq!(gov.constraints().len(), initial_count);
}

#[test]
fn test_evaluate_done_with_matching_result() {
    let gov = ExecutionGovernor::new(simple_goal(), empty_constraints());
    assert!(gov.evaluate_done("The result contains answer to the question."));
}

#[test]
fn test_evaluate_done_case_insensitive() {
    let gov = ExecutionGovernor::new(simple_goal(), empty_constraints());
    assert!(gov.evaluate_done("RESULT CONTAINS ANSWER"));
}

#[test]
fn test_evaluate_done_with_non_matching_result() {
    let gov = ExecutionGovernor::new(simple_goal(), empty_constraints());
    assert!(!gov.evaluate_done("This does not match any criteria."));
}

#[test]
fn test_evaluate_done_with_satisfied_criteria() {
    let mut gov = ExecutionGovernor::new(simple_goal(), empty_constraints());
    gov.satisfy_criterion("result contains answer");
    assert!(gov.evaluate_done("something unrelated"));
}

#[test]
fn test_evaluate_done_with_no_criteria() {
    let goal = GoalFrame { done_criteria: vec![], ..simple_goal() };
    let gov = ExecutionGovernor::new(goal, empty_constraints());
    assert!(gov.evaluate_done("anything"));
    assert!(!gov.evaluate_done(""));
    assert!(!gov.evaluate_done("   "));
}

#[test]
fn test_result_success_when_complete() {
    let mut gov = ExecutionGovernor::new(simple_goal(), empty_constraints());
    gov.mark_complete("All done successfully");
    let result = gov.result();
    assert!(result.is_success());
    assert_eq!(result.message(), "All done successfully");
}

#[test]
fn test_result_needs_input_when_in_progress() {
    let gov = ExecutionGovernor::new(simple_goal(), empty_constraints());
    let result = gov.result();
    assert!(matches!(result, GovernedResult::NeedsInput(_)));
    assert!(result.message().contains("in progress"));
}

#[test]
fn test_result_escalated() {
    let mut gov = ExecutionGovernor::new(simple_goal(), empty_constraints());
    gov.set_strategy(GovernorStrategy::Escalate);
    gov.record_attempt(false, "everything failed");
    let result = gov.result();
    assert!(matches!(result, GovernedResult::Escalated(_)));
    assert!(result.message().contains("escalated"));
}

#[test]
fn test_result_aborted() {
    let mut gov = ExecutionGovernor::new(simple_goal(), empty_constraints());
    gov.set_strategy(GovernorStrategy::Abort);
    gov.record_attempt(false, "total failure");
    let result = gov.result();
    assert!(matches!(result, GovernedResult::Aborted(_)));
    assert!(result.message().contains("aborted"));
}

#[test]
fn test_governed_result_is_success() {
    assert!(GovernedResult::Success("ok".into()).is_success());
    assert!(!GovernedResult::Aborted("no".into()).is_success());
    assert!(!GovernedResult::Escalated("help".into()).is_success());
    assert!(!GovernedResult::NeedsInput("?".into()).is_success());
}

#[test]
fn test_governed_result_message() {
    assert_eq!(GovernedResult::Success("ok".into()).message(), "ok");
    assert_eq!(GovernedResult::Aborted("no".into()).message(), "no");
    assert_eq!(GovernedResult::Escalated("help".into()).message(), "help");
    assert_eq!(GovernedResult::NeedsInput("?".into()).message(), "?");
}

#[test]
fn test_strategy_display() {
    assert_eq!(GovernorStrategy::Initial.to_string(), "Initial");
    assert_eq!(GovernorStrategy::Retry(2).to_string(), "Retry(2)");
    assert_eq!(GovernorStrategy::Alternative.to_string(), "Alternative");
    assert_eq!(GovernorStrategy::Escalate.to_string(), "Escalate");
    assert_eq!(GovernorStrategy::Abort.to_string(), "Abort");
}

#[test]
fn test_full_success_lifecycle() {
    let mut gov = ExecutionGovernor::new(simple_goal(), empty_constraints());
    assert!(gov.should_continue());
    gov.record_attempt(true, "result contains answer to the question");
    assert!(gov.evaluate_done("result contains answer to the question"));
    gov.mark_complete("result contains answer to the question");
    assert!(!gov.should_continue());
    assert!(gov.result().is_success());
}

#[test]
fn ladder_always_reaches_abort() {
    // Non-retryable failures: Initial -> Alternative -> Escalate -> Abort.
    let mut gov = ExecutionGovernor::new(simple_goal(), empty_constraints());
    for _ in 0..3 {
        gov.record_failure(&StructuredFailure::AuthenticationFailed { provider: "p".into(), hint: "h".into() });
        gov.advance_strategy();
    }
    assert_eq!(gov.strategy(), &GovernorStrategy::Abort);
}

#[test]
fn test_full_retry_lifecycle() {
    let mut gov = ExecutionGovernor::new(simple_goal(), empty_constraints());
    assert!(gov.should_continue());
    gov.record_failure(&connection_failure());
    gov.advance_strategy();
    assert_eq!(gov.strategy(), &GovernorStrategy::Retry(1));
    assert!(gov.should_continue());
    gov.record_attempt(true, "result contains answer");
    gov.mark_complete("result contains answer");
    assert!(gov.result().is_success());
}

#[test]
fn test_full_abort_lifecycle() {
    let mut goal = simple_goal();
    goal.max_iterations = 10;
    let mut gov = ExecutionGovernor::new(goal, empty_constraints());
    gov.record_failure(&StructuredFailure::AuthenticationFailed { provider: "openai".into(), hint: "bad key".into() });
    gov.advance_strategy();
    gov.record_attempt(false, "alternative also failed");
    gov.advance_strategy();
    gov.record_attempt(false, "escalation no help");
    gov.advance_strategy();
    assert!(!gov.should_continue());
    assert!(matches!(gov.result(), GovernedResult::Aborted(_)));
}

#[test]
fn test_failure_summary_empty() {
    let gov = ExecutionGovernor::new(simple_goal(), empty_constraints());
    assert_eq!(gov.failure_summary(), "");
}

#[test]
fn test_failure_summary_with_failures() {
    let mut gov = ExecutionGovernor::new(simple_goal(), empty_constraints());
    gov.record_attempt(false, "connection lost");
    let summary = gov.failure_summary();
    assert!(summary.contains("1/1"));
    assert!(summary.contains("connection lost"));
}

#[test]
fn test_failure_summary_with_constraints() {
    let mut gov = ExecutionGovernor::new(simple_goal(), empty_constraints());
    gov.record_failure(&StructuredFailure::PermissionDenied { resource: "/root".into(), action: "write".into(), recovery: "sudo".into() });
    assert!(gov.failure_summary().contains("constraint"));
}

#[test]
fn constraints_added_through_the_governor_stay_with_it() {
    let mut gov = ExecutionGovernor::new(simple_goal(), empty_constraints());
    let id = gov.constraints_mut().add("never delete files", "run-1");
    assert_eq!(gov.constraints().len(), 1);
    assert_eq!(gov.constraints().all()[0].id, id);
    assert_eq!(gov.constraints().all()[0].description, "never delete files");
    assert_eq!(gov.attempts(), 0);
    assert_eq!(gov.strategy(), &GovernorStrategy::Initial);
}

#[test]
fn time_budget_is_exceeded_only_past_it() {
    let gov = ExecutionGovernor::new_at(simple_goal(), empty_constraints(), 1_000);
    assert!(gov.should_continue_at(1_000 + 120_000));
    assert!(!gov.should_continue_at(1_000 + 120_001));
    let mut zero = simple_goal();
    zero.time_budget_ms = 0;
    let gov0 = ExecutionGovernor::new_at(zero, empty_constraints(), 1_000);
    assert!(!gov0.should_continue_at(1_000));
}
