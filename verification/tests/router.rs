use abigail::agentic::ChatMessage;
use abigail::router::{
    ego_label, id_label, plan_attempts, unified_target,
    diagnose, fast_path_classify, routing_mode_str, target_for_mode, EgoProvider, FastPathTarget, RouterShape,
    RoutingMode,
};
use abigail::subagent::{
    subagent_not_found, validate_delegation_policy, DelegationRoute, SubagentDefinition, SubagentProvider,
    SubagentRegistry,
};

fn shape(ego: Option<EgoProvider>) -> RouterShape {
    RouterShape { has_ego: ego.is_some(), ego_provider: ego, has_local_http: false, mode: RoutingMode::EgoPrimary }
}

#[test]
fn test_ego_primary_without_ego_falls_to_id() {
    assert_eq!(target_for_mode(&shape(None)), FastPathTarget::Id);
}

#[test]
fn test_fast_path_classify_prefers_ego_for_external_context() {
    let fp = fast_path_classify(&shape(Some(EgoProvider::OpenAi)), "Search the web for the latest incident response guidance");
    assert_eq!(fp.target, FastPathTarget::Ego);
    assert!(fp.context_aligned);
}

#[test]
fn test_fast_path_classify_routes_to_ego_when_available() {
    let fp = fast_path_classify(&shape(Some(EgoProvider::OpenAi)), "hi");
    assert_eq!(fp.target, FastPathTarget::Ego);
    assert!(!fp.context_aligned);
}

#[test]
fn test_diagnose_ego_primary() {
    let diag = diagnose(&shape(Some(EgoProvider::OpenAi)), "hi");
    assert_eq!(diag.mode, "egoprimary");
    assert_eq!(diag.target, "ego");
    assert_eq!(diag.selection_reason, "ego_primary");
    assert_eq!(diag.ego_provider.as_deref(), Some("openai"));
}

#[test]
fn diagnose_without_ego_targets_id() {
    let diag = diagnose(&shape(None), "hi");
    assert_eq!(diag.target, "id");
    assert!(diag.ego_provider.is_none());
}

#[test]
fn routing_mode_names() {
    assert_eq!(routing_mode_str(RoutingMode::EgoPrimary), "egoprimary");
    assert_eq!(routing_mode_str(RoutingMode::CliOrchestrator), "cliorchestrator");
}

#[test]
fn ego_provider_names() {
    assert_eq!(EgoProvider::OpenAi.to_string(), "openai");
    assert_eq!(EgoProvider::GeminiCli.to_string(), "gemini-cli");
    assert_eq!(FastPathTarget::Ego.to_string(), "Ego");
}

fn def(id: &str, name: &str, caps: Vec<&str>) -> SubagentDefinition {
    SubagentDefinition {
        id: id.into(),
        name: name.into(),
        description: "d".into(),
        capabilities: caps.into_iter().map(String::from).collect(),
        provider: SubagentProvider::SameAsEgo,
    }
}

fn user(text: &str) -> ChatMessage {
    ChatMessage { role: "user".into(), content: text.into() }
}

#[test]
fn test_register_and_list() {
    let mut reg = SubagentRegistry::new();
    assert!(reg.list().is_empty());
    reg.register(def("test-1", "Test Agent", vec!["web_search"]));
    assert_eq!(reg.list().len(), 1);
    assert_eq!(reg.list()[0].id, "test-1");
}

#[test]
fn test_register_replaces_existing() {
    let mut reg = SubagentRegistry::new();
    reg.register(def("test-1", "V1", vec![]));
    reg.register(def("test-1", "V2", vec!["file_read"]));
    assert_eq!(reg.list().len(), 1);
    assert_eq!(reg.list()[0].name, "V2");
}

#[test]
fn test_delegate_unknown_subagent() {
    let reg = SubagentRegistry::new();
    let result = reg.delegation_route("nonexistent", &[user("hello")]);
    assert!(result.is_err());
    assert!(result.unwrap_err().contains("not found"));
    assert_eq!(subagent_not_found("nope"), "Subagent 'nope' not found");
}

#[test]
fn test_delegate_policy_denies_empty_capabilities() {
    let mut reg = SubagentRegistry::new();
    reg.register(SubagentDefinition {
        id: "empty".into(),
        name: "Empty".into(),
        description: "No capabilities".into(),
        capabilities: vec![],
        provider: SubagentProvider::SameAsEgo,
    });
    let result = reg.delegation_route("empty", &[user("hello")]);
    assert!(result.is_err());
    assert!(result.unwrap_err().contains("no declared capabilities"));
    let d = def("empty", "Empty", vec![]);
    let err = validate_delegation_policy(&d, &[user("hello")]).unwrap_err();
    assert!(err.contains("no declared capabilities"));
}

#[test]
fn delegation_route_follows_the_provider() {
    let mut reg = SubagentRegistry::new();
    reg.register(def("ego", "Ego", vec!["web_search"]));
    let mut id_def = def("id", "Id", vec!["web_search"]);
    id_def.provider = SubagentProvider::SameAsId;
    reg.register(id_def);
    let mut custom = def("custom", "Custom", vec!["web_search"]);
    custom.provider = SubagentProvider::Custom("openai".into(), "k".into());
    reg.register(custom);
    let msgs = [user("find the weather")];
    assert_eq!(reg.delegation_route("ego", &msgs), Ok(DelegationRoute::RouteWithTools));
    assert_eq!(reg.delegation_route("id", &msgs), Ok(DelegationRoute::Route));
    assert_eq!(reg.delegation_route("custom", &msgs), Ok(DelegationRoute::RouteWithTools));
    let err = reg.delegation_route("id", &[user("delete everything")]).unwrap_err();
    assert!(err.contains("destructive_ops"));
}

#[test]
fn delegation_denies_destructive_without_capability() {
    let d = def("ops", "Ops", vec!["web_search"]);
    let err = validate_delegation_policy(&d, &[user("please DROP TABLE users")]).unwrap_err();
    assert!(err.contains("destructive_ops"));
    let d2 = def("ops", "Ops", vec!["destructive_ops"]);
    assert!(validate_delegation_policy(&d2, &[user("please drop table users")]).is_ok());
}

#[test]
fn delegation_denies_empty_prompt() {
    let d = def("a", "A", vec!["web_search"]);
    let err = validate_delegation_policy(&d, &[user("   ")]).unwrap_err();
    assert!(err.contains("empty user message"));
}

#[test]
fn attempts_fall_back_to_the_other_provider() {
    let with_ego = shape(Some(EgoProvider::OpenAi));
    let without = shape(None);
    assert_eq!(plan_attempts(FastPathTarget::Ego, &with_ego), (FastPathTarget::Ego, Some(FastPathTarget::Id)));
    assert_eq!(plan_attempts(FastPathTarget::Id, &with_ego), (FastPathTarget::Id, Some(FastPathTarget::Ego)));
    assert_eq!(plan_attempts(FastPathTarget::Ego, &without), (FastPathTarget::Id, None));
    assert_eq!(plan_attempts(FastPathTarget::Id, &without), (FastPathTarget::Id, None));
}

#[test]
fn unified_target_honours_force_and_override() {
    let with_ego = shape(Some(EgoProvider::OpenAi));
    assert_eq!(unified_target(&with_ego, true, Some("gpt-4.1".into())), (FastPathTarget::Id, None));
    assert_eq!(
        unified_target(&with_ego, false, Some("gpt-4.1".into())),
        (FastPathTarget::Ego, Some("gpt-4.1".to_string()))
    );
    assert_eq!(unified_target(&shape(None), false, None), (FastPathTarget::Id, None));
}

#[test]
fn provider_labels_for_traces() {
    let mut s = shape(Some(EgoProvider::OpenAi));
    assert_eq!(ego_label(&s), "openai");
    assert_eq!(id_label(&s), "id(candle_stub)");
    s.has_local_http = true;
    assert_eq!(id_label(&s), "id(local_http)");
    assert_eq!(ego_label(&shape(None)), "ego");
}
