use abigail::layer2::{layer2_prompt, layer2_wanted, settle_classification};
use abigail::classifier::{ModelTier, PromptTier, RoutingTarget};
use abigail::layer2::{layer2_from_tier_text, parse_layer2_tier, score_object};
use abigail::tier_resolver::{cloud_credentials_usable, provider_family, resolution_order, resolve_step, Availability, ProviderFamily, ResolutionStep};

fn avail(local: bool, fast: bool, standard: bool, pro: bool) -> Availability {
    Availability { local, cloud_fast: fast, cloud_standard: standard, cloud_pro: pro }
}

#[test]
fn test_resolve_t1_with_local() {
    assert_eq!(resolve_step(PromptTier::T1Fast, avail(true, true, true, true)), ResolutionStep::Local);
}

#[test]
fn test_resolve_t2_without_ego_uses_local() {
    assert_eq!(resolve_step(PromptTier::T2Standard, avail(true, false, false, false)), ResolutionStep::Local);
}

#[test]
fn test_resolve_t3_without_anything_uses_candle_stub() {
    assert_eq!(resolve_step(PromptTier::T3Pro, avail(false, false, false, false)), ResolutionStep::Fallback);
}

#[test]
fn test_resolve_t4_same_as_t3() {
    assert_eq!(resolution_order(PromptTier::T4Specialist), resolution_order(PromptTier::T3Pro));
    let a = avail(false, true, true, true);
    assert_eq!(resolve_step(PromptTier::T4Specialist, a), ResolutionStep::Cloud(ModelTier::Pro));
}

#[test]
fn test_resolve_with_only_local() {
    let a = avail(true, false, false, false);
    for t in [PromptTier::T1Fast, PromptTier::T2Standard, PromptTier::T3Pro, PromptTier::T4Specialist] {
        assert_eq!(resolve_step(t, a), ResolutionStep::Local);
    }
}

#[test]
fn test_resolve_all_tiers_with_ego() {
    let a = avail(false, true, true, true);
    assert_eq!(resolve_step(PromptTier::T1Fast, a), ResolutionStep::Cloud(ModelTier::Fast));
    assert_eq!(resolve_step(PromptTier::T2Standard, a), ResolutionStep::Cloud(ModelTier::Standard));
    assert_eq!(resolve_step(PromptTier::T3Pro, a), ResolutionStep::Cloud(ModelTier::Pro));
}

#[test]
fn pro_tier_falls_down_the_cloud_tiers() {
    assert_eq!(resolve_step(PromptTier::T3Pro, avail(true, true, false, false)), ResolutionStep::Cloud(ModelTier::Fast));
}

#[test]
fn provider_names_and_aliases() {
    assert_eq!(provider_family("openai"), Some(ProviderFamily::OpenAi));
    assert_eq!(provider_family("anthropic"), Some(ProviderFamily::Anthropic));
    assert_eq!(provider_family("pplx"), Some(ProviderFamily::Perplexity));
    assert_eq!(provider_family("grok"), Some(ProviderFamily::Xai));
    assert_eq!(provider_family("gemini"), Some(ProviderFamily::Google));
    assert_eq!(provider_family("unknown"), None);
}

#[test]
fn credentials_need_a_key() {
    assert!(cloud_credentials_usable(Some("openai"), Some("k")));
    assert!(!cloud_credentials_usable(Some("openai"), Some("")));
    assert!(!cloud_credentials_usable(None, Some("k")));
}

#[test]
fn test_l2_response_parsing() {
    let (tier, m, target, rule) = parse_layer2_tier(r#"{"tier": "T3", "confidence": 0.85}"#).unwrap();
    assert_eq!(rule, "llm_layer2");
    assert_eq!(tier, PromptTier::T3Pro);
    assert_eq!(m.complexity, 60);
    assert_eq!(m.ethical_weight, 5);
    assert_eq!(target, RoutingTarget::Ego);
}

#[test]
fn test_l2_response_parsing_with_extra_text() {
    let (tier, _, target, _) = parse_layer2_tier(r#"Sure! {"tier": "T1", "confidence": 0.9} hope that helps"#).unwrap();
    assert_eq!(tier, PromptTier::T1Fast);
    assert_eq!(target, RoutingTarget::Id);
}

#[test]
fn test_l2_parse_invalid_tier() {
    assert!(parse_layer2_tier(r#"{"tier": "T9"}"#).is_none());
}

#[test]
fn test_l2_parse_empty_string() {
    assert!(parse_layer2_tier("").is_none());
}

#[test]
fn test_l2_response_parsing_invalid() {
    assert!(parse_layer2_tier("no json here").is_none());
    assert!(parse_layer2_tier(r#"{"confidence": 0.5}"#).is_none());
}

#[test]
fn score_object_spans_outer_braces() {
    assert_eq!(score_object(r#"  Here is my review: {"score": 8} - good work "#).as_deref(), Some(r#"{"score": 8}"#));
    assert_eq!(score_object(r#"{"score": 6, "reason": "ok"}"#).as_deref(), Some(r#"{"score": 6, "reason": "ok"}"#));
    assert_eq!(score_object("not json at all"), None);
    assert_eq!(score_object(""), None);
    assert_eq!(score_object("} {"), None);
}

#[test]
fn layer2_is_asked_only_below_half_confidence_with_a_model() {
    assert!(layer2_wanted(49, true));
    assert!(!layer2_wanted(50, true));
    assert!(!layer2_wanted(10, false));
    assert_eq!(settle_classification("l1", 40, true, Some("l2")), "l2");
    assert_eq!(settle_classification("l1", 40, true, None), "l1");
    assert_eq!(settle_classification("l1", 90, true, Some("l2")), "l1");
    let p = layer2_prompt("hi there");
    assert!(p.starts_with("Classify this user message into exactly one complexity tier."));
    assert!(p.contains("User message: \"hi there\""));
    assert!(p.ends_with("{\"tier\": \"T1\"|\"T2\"|\"T3\"|\"T4\", \"confidence\": 0.0-1.0}"));
}

#[test]
fn tier_text_maps_to_its_neutral_matrix() {
    let (tier, m, target, rule) = layer2_from_tier_text("T4").unwrap();
    assert_eq!(tier, PromptTier::T4Specialist);
    assert_eq!(m.complexity, 85);
    assert_eq!(m.latency_tolerance, 85);
    assert_eq!(m.ethical_weight, 5);
    assert_eq!(m.tool_count, 0);
    assert_eq!(rule, "llm_layer2");
    assert_eq!(target, RoutingTarget::Ego);
    let (_, m2, _, _) = layer2_from_tier_text("T2").unwrap();
    assert_eq!(m2.complexity, 35);
    assert!(layer2_from_tier_text("t3").is_none());
    assert!(layer2_from_tier_text("").is_none());
}
