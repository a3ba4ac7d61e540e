use abigail::classifier::{
    classify_layer1, score_to_routing_target, tier_from_signals, DecisionMatrix, ModelTier, PromptTier,
    RoutingTarget, Signals,
};

fn matrix(c: u8, e: u8, l: u8, t: u8, p: u8) -> DecisionMatrix {
    DecisionMatrix { complexity: c, ethical_weight: e, latency_tolerance: l, tool_count: t, user_preference: p }
}

#[test]
fn test_matrix_composite_default_weights() {
    let m = matrix(80, 10, 70, 30, 50);
    // 80*0.30 + 10*0.15 + 70*0.15 + 30*0.20 + 50*0.20 = 52
    assert_eq!(m.composite(), 52);
}

#[test]
fn test_matrix_composite_clamped_to_100() {
    let m = matrix(100, 100, 100, 100, 100);
    assert_eq!(m.composite(), 100);
}

#[test]
fn test_matrix_all_zeros() {
    let m = matrix(0, 0, 0, 0, 0);
    assert_eq!(m.composite(), 0);
}

#[test]
fn test_matrix_advisory_tier() {
    let low = matrix(5, 5, 5, 0, 10);
    assert_eq!(low.advisory_tier(), PromptTier::T1Fast);
    let high = matrix(100, 50, 100, 90, 90);
    assert_eq!(high.advisory_tier(), PromptTier::T4Specialist);
}

#[test]
fn test_routing_target_from_score() {
    let m = matrix(5, 5, 5, 0, 50);
    assert_eq!(m.to_routing_target(), RoutingTarget::Id);
    let m = matrix(80, 10, 80, 60, 50);
    assert_eq!(m.to_routing_target(), RoutingTarget::Ego);
}

#[test]
fn test_routing_target_superego_trigger() {
    let m = matrix(10, 85, 10, 0, 50);
    assert_eq!(m.to_routing_target(), RoutingTarget::Superego);
}

#[test]
fn test_routing_target_display() {
    assert_eq!(RoutingTarget::Id.to_string(), "Id");
    assert_eq!(RoutingTarget::Ego.to_string(), "Ego");
    assert_eq!(RoutingTarget::Superego.to_string(), "Superego");
}

#[test]
fn test_matrix_display_format() {
    let m = matrix(80, 10, 70, 30, 50);
    let s = m.to_string();
    assert!(s.contains("score=52"));
    assert!(s.contains("complexity=80"));
    assert!(s.contains("ethical=10"));
    assert!(s.contains("latency=70"));
    assert!(s.contains("tools=30"));
    assert!(s.contains("preference=50"));
}

#[test]
fn test_score_to_routing_target_boundary() {
    assert_eq!(score_to_routing_target(0), RoutingTarget::Id);
    assert_eq!(score_to_routing_target(30), RoutingTarget::Id);
    assert_eq!(score_to_routing_target(31), RoutingTarget::Ego);
    assert_eq!(score_to_routing_target(100), RoutingTarget::Ego);
}

#[test]
fn test_tier_from_signals_priority() {
    let mut s = Signals::default();
    s.is_code_request = true;
    s.is_complex_analysis = true;
    assert_eq!(tier_from_signals(&s), PromptTier::T4Specialist);

    let mut s = Signals::default();
    s.is_complex_analysis = true;
    s.is_greeting = true;
    assert_eq!(tier_from_signals(&s), PromptTier::T3Pro);

    let s = Signals::default();
    assert_eq!(tier_from_signals(&s), PromptTier::T2Standard);
}

#[test]
fn composite_rounds_half_up() {
    // 100*0.30 + 50*0.15 + 100*0.15 + 90*0.20 + 90*0.20 = 88.5 -> 89
    assert_eq!(matrix(100, 50, 100, 90, 90).composite(), 89);
    // 1*0.30 + 1*0.15 + 0 + 0 + 0 = 0.45 -> 0
    assert_eq!(matrix(1, 1, 0, 0, 0).composite(), 0);
}

#[test]
fn composite_is_monotone_on_examples() {
    let a = matrix(10, 20, 30, 40, 50);
    let b = matrix(11, 20, 35, 40, 60);
    assert!(a.composite() <= b.composite());
}

#[test]
fn model_tier_of_prompt_tiers() {
    assert_eq!(PromptTier::T1Fast.model_tier(), ModelTier::Fast);
    assert_eq!(PromptTier::T4Specialist.model_tier(), ModelTier::Pro);
}

#[test]
fn test_greeting_t1() {
    let r = classify_layer1("hello");
    assert_eq!(r.tier, PromptTier::T1Fast);
    assert!(r.confidence_pct >= 90);
    assert_eq!(r.matched_rule.as_deref(), Some("greeting"));
}

#[test]
fn test_time_question_t1() {
    let r = classify_layer1("What time is it?");
    assert_eq!(r.tier, PromptTier::T1Fast);
    assert_eq!(r.matched_rule.as_deref(), Some("simple_question"));
}

#[test]
fn test_code_request_t4() {
    let r = classify_layer1("Write a function to sort an array");
    assert_eq!(r.tier, PromptTier::T4Specialist);
    assert_eq!(r.matched_rule.as_deref(), Some("code_request"));
}

#[test]
fn test_math_request_t4() {
    let r = classify_layer1("Solve this equation: 3x + 5 = 20");
    assert_eq!(r.tier, PromptTier::T4Specialist);
    assert_eq!(r.matched_rule.as_deref(), Some("math_request"));
}

#[test]
fn test_complex_analysis_t3() {
    let r = classify_layer1("Analyze the pros and cons of remote work");
    assert_eq!(r.tier, PromptTier::T3Pro);
    assert_eq!(r.matched_rule.as_deref(), Some("complex_analysis"));
}

#[test]
fn test_moderate_question_t2() {
    let r = classify_layer1("What is photosynthesis and how does it work?");
    assert_eq!(r.tier, PromptTier::T2Standard);
}

#[test]
fn test_empty_string_classifies() {
    let r = classify_layer1("");
    assert_eq!(r.tier, PromptTier::T1Fast);
}

#[test]
fn test_whitespace_only_classifies() {
    let r = classify_layer1("  \n\t  ");
    assert_eq!(r.tier, PromptTier::T1Fast);
}

#[test]
fn test_overlapping_pattern_code_wins() {
    let r = classify_layer1("write a function to analyze data");
    assert_eq!(r.tier, PromptTier::T4Specialist);
    assert_eq!(r.matched_rule.as_deref(), Some("code_request"));
}

#[test]
fn test_tool_use_read_file() {
    let r = classify_layer1("read the file at C:\\Users\\test.txt");
    assert_eq!(r.tier, PromptTier::T3Pro);
    assert_eq!(r.matched_rule.as_deref(), Some("tool_use_request"));
}

#[test]
fn ethical_weight_saturates_at_100_and_routes_to_superego() {
    let lower: Vec<char> =
        "suicide self-harm violence weapon social security medical advice legal advice".chars().collect();
    assert_eq!(abigail::classifier::score_ethical_weight(&lower), 100);
    let c = classify_layer1("suicide self-harm violence weapon social security medical advice legal advice");
    assert_eq!(c.matrix.ethical_weight, 100);
    assert_eq!(c.routing_target, RoutingTarget::Superego);
}
