use abigail::policy::{build_allowlist_payload, is_external_skill, PolicyConfig, SignedSkillAllowlistEntry, SkillExecutionPolicy};
use base64::Engine;
use ed25519_dalek::Signer;

fn b64(bytes: &[u8]) -> String {
    base64::engine::general_purpose::STANDARD.encode(bytes)
}

fn signing_key() -> ed25519_dalek::SigningKey {
    ed25519_dalek::SigningKey::from_bytes(&[7u8; 32])
}

fn base_config() -> PolicyConfig {
    PolicyConfig { trusted_skill_signers: vec![], approved_skill_ids: vec![], signed_skill_allowlist: vec![] }
}

fn entry(skill_id: &str, signer: &str, signature: String) -> SignedSkillAllowlistEntry {
    SignedSkillAllowlistEntry {
        skill_id: skill_id.to_string(),
        signer: signer.to_string(),
        signature,
        source: "test".to_string(),
        added_at: "2026-03-01T00:00:00Z".to_string(),
        active: true,
    }
}

fn sign(key: &ed25519_dalek::SigningKey, e: &SignedSkillAllowlistEntry) -> String {
    let payload = build_allowlist_payload(&e.skill_id, &e.signer, &e.source, e.active);
    b64(&key.sign(payload.as_bytes()).to_bytes())
}

#[test]
fn valid_signed_entry_allows_external_skill() {
    let key = signing_key();
    let signer = b64(&key.verifying_key().to_bytes());
    let mut config = base_config();
    config.trusted_skill_signers = vec![signer.clone()];
    let mut e = entry("dynamic.github_api", &signer, String::new());
    e.signature = sign(&key, &e);
    config.signed_skill_allowlist = vec![e];
    let policy = SkillExecutionPolicy::from_app_config(&config);
    assert!(policy.evaluate_execution("dynamic.github_api").is_ok());
}

#[test]
fn invalid_signature_fails_closed() {
    let key = signing_key();
    let signer = b64(&key.verifying_key().to_bytes());
    let mut config = base_config();
    config.trusted_skill_signers = vec![signer.clone()];
    config.signed_skill_allowlist = vec![entry("dynamic.github_api", &signer, b64(&[0u8; 64]))];
    let policy = SkillExecutionPolicy::from_app_config(&config);
    let err = policy.evaluate_execution("dynamic.github_api").unwrap_err();
    assert!(err.contains("verification failed"));
}

#[test]
fn strict_signed_mode_blocks_unsigned_external_skill() {
    let key = signing_key();
    let signer = b64(&key.verifying_key().to_bytes());
    let mut config = base_config();
    config.trusted_skill_signers = vec![signer];
    let policy = SkillExecutionPolicy::from_app_config(&config);
    let err = policy.evaluate_execution("dynamic.untrusted").unwrap_err();
    assert!(err.contains("signed allowlist verification is required"));
}

#[test]
fn open_policy_allows_everything() {
    let policy = SkillExecutionPolicy::from_app_config(&base_config());
    assert!(policy.evaluate_activation("dynamic.anything").is_ok());
    assert!(policy.evaluate_execution("builtin.hive").is_ok());
}

#[test]
fn broken_signer_key_denies_every_skill() {
    let mut config = base_config();
    config.trusted_skill_signers = vec!["not base64!!".to_string()];
    let policy = SkillExecutionPolicy::from_app_config(&config);
    let err = policy.evaluate_activation("builtin.hive").unwrap_err();
    assert!(err.starts_with("Skill policy configuration error: Invalid trusted signer key 'not base64!!'"));
    assert!(policy.evaluate_execution("dynamic.x").is_err());
}

#[test]
fn short_signer_key_is_a_configuration_error() {
    let mut config = base_config();
    config.trusted_skill_signers = vec![b64(&[1u8; 16])];
    let policy = SkillExecutionPolicy::from_app_config(&config);
    let err = policy.evaluate_activation("builtin.hive").unwrap_err();
    assert!(err.contains("16 bytes"));
}

#[test]
fn untrusted_signer_is_blocked() {
    let key = signing_key();
    let other = ed25519_dalek::SigningKey::from_bytes(&[9u8; 32]);
    let trusted = b64(&key.verifying_key().to_bytes());
    let untrusted = b64(&other.verifying_key().to_bytes());
    let mut config = base_config();
    config.trusted_skill_signers = vec![trusted];
    let mut e = entry("dynamic.tool", &untrusted, String::new());
    e.signature = sign(&other, &e);
    config.signed_skill_allowlist = vec![e];
    let policy = SkillExecutionPolicy::from_app_config(&config);
    let err = policy.evaluate_activation("dynamic.tool").unwrap_err();
    assert!(err.contains("is not in trusted_skill_signers"));
}

#[test]
fn approval_list_blocks_unlisted_skill() {
    let mut config = base_config();
    config.approved_skill_ids = vec![" builtin.hive ".to_string()];
    let policy = SkillExecutionPolicy::from_app_config(&config);
    assert!(policy.evaluate_execution("builtin.hive").is_ok());
    let err = policy.evaluate_execution("builtin.other").unwrap_err();
    assert!(err.contains("not in approved_skill_ids"));
    // Activation does not consult the approval list.
    assert!(policy.evaluate_activation("builtin.other").is_ok());
}

#[test]
fn payload_has_fixed_layout() {
    assert_eq!(
        build_allowlist_payload("dynamic.a", "KEY", "src", true),
        "abigail-signed-skill-allowlist-v1\nskill_id=dynamic.a\nsigner=KEY\nsource=src\nactive=true"
    );
}

#[test]
fn builtin_namespaces_are_not_external() {
    assert!(!is_external_skill("builtin.hive"));
    assert!(!is_external_skill("com.abigail.skills.x"));
    assert!(!is_external_skill("skill.y"));
    assert!(is_external_skill("dynamic.z"));
}

#[test]
fn short_signature_is_rejected_with_its_error() {
    let key = signing_key();
    let signer = b64(&key.verifying_key().to_bytes());
    let mut config = base_config();
    config.trusted_skill_signers = vec![signer.clone()];
    config.signed_skill_allowlist = vec![entry("dynamic.github_api", &signer, b64(&[1u8; 10]))];
    let policy = SkillExecutionPolicy::from_app_config(&config);
    let err = policy.evaluate_execution("dynamic.github_api").unwrap_err();
    assert_eq!(err, "Invalid Ed25519 signature for 'dynamic.github_api': signature error");
}
