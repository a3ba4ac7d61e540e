use abigail::mentor_chat::{inject_preprompt, request_headers, MentorChatEnvelope};

fn request() -> MentorChatEnvelope {
    MentorChatEnvelope::request("c-1".into(), "s-1".into(), "entity-1".into(), "hello".into(), Some("gpt-4.1".into()))
}

#[test]
fn inject_appends_mentor_section() {
    assert_eq!(inject_preprompt("BASE", Some("ctx".to_string())), "BASE\n\n## Mentor Monitor\nctx\n");
}

#[test]
fn inject_skips_blank_or_missing_preprompt() {
    assert_eq!(inject_preprompt("BASE", Some("  \n\t ".to_string())), "BASE");
    assert_eq!(inject_preprompt("BASE", None), "BASE");
}

#[test]
fn request_envelope_starts_at_request_stage() {
    let e = request();
    assert_eq!(e.stage, "request");
    assert!(e.enriched_preprompt.is_none());
    assert!(!e.is_enriched());
    assert!(!e.created_at_utc.is_empty());
}

#[test]
fn enrichment_uses_loaded_context_or_fallback() {
    let (e, headers) = request().enrich("calm".into(), "safe".into(), Some("loaded".into())).unwrap();
    assert_eq!(e.stage, "enriched");
    assert_eq!(e.enriched_preprompt.as_deref(), Some("loaded"));
    assert_eq!(e.id_context.as_deref(), Some("calm"));
    assert_eq!(headers[0], ("stage".to_string(), "enriched".to_string()));
    assert_eq!(headers.len(), 5);
    assert!(e.answers("c-1"));
    assert!(!e.answers("c-2"));

    let (f, _) = request().enrich("calm".into(), "safe".into(), None).unwrap();
    assert_eq!(
        f.enriched_preprompt.unwrap(),
        "Mentor monitor context:\n- correlation: c-1\n- selected model subscriber: gpt-4.1\n- id context: calm\n- superego context: safe\n- out-of-band observers: memory/id/superego non-blocking"
    );
}

#[test]
fn enriched_envelope_is_not_enriched_again() {
    let (e, _) = request().enrich("a".into(), "b".into(), None).unwrap();
    assert!(e.enrich("a".into(), "b".into(), None).is_none());
}

#[test]
fn fallback_names_default_model() {
    let e = MentorChatEnvelope::request("c".into(), "s".into(), "e".into(), "m".into(), None);
    assert!(e.fallback_preprompt("x", "y").contains("selected model subscriber: default"));
}

#[test]
fn request_headers_carry_group() {
    let h = request_headers("c-9".into(), "group-1".into());
    assert_eq!(h[2], ("entity_subscriber_group".to_string(), "group-1".to_string()));
}
