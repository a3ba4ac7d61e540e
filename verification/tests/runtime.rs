use abigail::manifest::{SecretDescriptor, SkillId, SkillManifest};
use abigail::secrets::{
    collect_declared_secret_keys, is_removed_secret_key, removed_capability_for_secret_key, removed_email_secret_keys,
    removed_secret_key_error, supported_native_skill_ids, supported_runtime_skill_ids, validate_hive_secret_key,
    validate_secret_namespace, validate_secret_namespace_from_manifests,
};
use abigail::topology::{
    binding_for_skill, cancel_provisioned_skill_topology, worker_reply, enabled_skill_ids, merge_topology_entries, provision_plan,
    TopologySkillEntry,
};
use std::collections::HashMap;

fn manifest_with_secret(id: &str, secret: &str) -> SkillManifest {
    SkillManifest {
        id: SkillId(id.to_string()),
        name: id.to_string(),
        version: "0.1.0".to_string(),
        description: String::new(),
        license: None,
        category: "General".to_string(),
        keywords: vec![],
        runtime: "Native".to_string(),
        min_abigail_version: "0.1.0".to_string(),
        platforms: vec!["All".to_string()],
        capabilities: vec![],
        permissions: vec![],
        secrets: vec![SecretDescriptor { name: secret.to_string(), description: String::new(), required: true }],
        config_defaults: HashMap::new(),
    }
}

#[test]
fn removed_email_secret_keys_are_rejected() {
    for key in removed_email_secret_keys() {
        let err = validate_secret_namespace_from_manifests(&vec![], &vec![], &[], &[], &key)
            .expect_err("removed email key should be rejected");
        assert!(err.contains("email_transport"));
    }
}

#[test]
fn removed_keys_are_recognised() {
    assert!(is_removed_secret_key("imap_password"));
    assert!(!is_removed_secret_key("openai"));
    assert!(removed_capability_for_secret_key("smtp_host").is_some());
    assert!(removed_capability_for_secret_key("github_token").is_none());
    assert!(removed_secret_key_error("imap_user").contains("imap_user"));
    assert!(validate_hive_secret_key("imap_user").is_err());
    assert!(validate_hive_secret_key("github_token").is_ok());
}

#[test]
fn namespace_accepts_reserved_declared_and_preloaded_keys() {
    let reserved = vec!["openai".to_string(), "anthropic".to_string()];
    let preloaded = vec!["github_token".to_string()];
    let manifests = vec![manifest_with_secret("builtin.x", "x_key")];
    let discovered = vec![manifest_with_secret("dynamic.y", "y_key")];
    assert!(validate_secret_namespace_from_manifests(&reserved, &preloaded, &manifests, &discovered, "openai").is_ok());
    assert!(validate_secret_namespace_from_manifests(&reserved, &preloaded, &manifests, &discovered, "github_token").is_ok());
    assert!(validate_secret_namespace_from_manifests(&reserved, &preloaded, &manifests, &discovered, "x_key").is_ok());
    assert!(validate_secret_namespace_from_manifests(&reserved, &preloaded, &manifests, &discovered, "y_key").is_ok());
    let err = validate_secret_namespace_from_manifests(&reserved, &preloaded, &manifests, &discovered, "other").unwrap_err();
    assert_eq!(
        err,
        "Secret key 'other' is not in the allowed namespace. Keys must be a reserved provider name (openai, anthropic) or declared in a supported skill manifest."
    );
}

#[test]
fn namespace_passes_on_a_listing_error() {
    let r = validate_secret_namespace(Err("registry unavailable".to_string()), &vec![], &vec![], &[], "k");
    assert_eq!(r, Err("registry unavailable".to_string()));
}

#[test]
fn declared_secret_keys_are_collected_sorted() {
    let manifests = vec![manifest_with_secret("a", "zeta"), manifest_with_secret("b", "alpha"), manifest_with_secret("c", "zeta")];
    let keys = collect_declared_secret_keys(Ok(manifests), &[], &vec!["gamma".to_string()], &vec!["openai".to_string()]).unwrap();
    assert_eq!(keys, vec!["alpha".to_string(), "gamma".to_string(), "openai".to_string(), "zeta".to_string()]);
    let err = collect_declared_secret_keys(Err("down".to_string()), &[], &vec![], &vec![]);
    assert_eq!(err, Err("down".to_string()));
}

#[test]
fn runtime_skill_ids_include_native_and_preloaded() {
    let native = supported_native_skill_ids();
    assert!(native.windows(2).all(|w| w[0] < w[1]));
    let all = supported_runtime_skill_ids(&vec!["dynamic.github_api".to_string()]);
    assert!(all.contains(&"dynamic.github_api".to_string()));
    for id in &native {
        assert!(all.contains(id));
    }
}

#[test]
fn load_enabled_skill_ids_filters_disabled_and_dedupes() {
    let entries = vec![("a".to_string(), true), ("a".to_string(), true), ("b".to_string(), false)];
    assert_eq!(enabled_skill_ids(&entries), vec!["a".to_string()]);
}

#[test]
fn skill_topics_use_sanitised_ids() {
    let b = binding_for_skill("com.abigail.skills.test");
    assert!(b.request_topic.starts_with("topic.skill."));
    assert!(b.request_topic.ends_with(".request"));
    assert!(b.response_topic.ends_with(".response"));
    assert!(b.worker_group.starts_with("skill-worker."));
}

#[test]
fn provision_plan_marks_wasm_runtimes() {
    let entries = vec![
        TopologySkillEntry { name: "a".into(), runtime: "Wasm".into(), enabled: true },
        TopologySkillEntry { name: "b".into(), runtime: "Native".into(), enabled: true },
    ];
    let plan = provision_plan(&entries);
    assert_eq!(plan.len(), 2);
    assert_eq!(plan[0].runtime, "wasm");
    assert_eq!(plan[1].runtime, "native");
    let merged = merge_topology_entries(&[("c".to_string(), true)], &entries);
    assert_eq!(merged.iter().map(|e| e.name.clone()).collect::<Vec<_>>(), vec!["a", "b", "c"]);
}

#[test]
fn cancel_topology_hands_back_every_worker_and_empties_the_list() {
    let mut workers = vec!["w1".to_string(), "w2".to_string(), "w3".to_string()];
    let drained = cancel_provisioned_skill_topology(&mut workers);
    assert_eq!(drained, vec!["w1".to_string(), "w2".to_string(), "w3".to_string()]);
    assert!(workers.is_empty());
    let again = cancel_provisioned_skill_topology(&mut workers);
    assert!(again.is_empty());
}

#[test]
fn topology_worker_acknowledges_with_its_runtime() {
    let steps = provision_plan(&[TopologySkillEntry {
        name: "skill.web".to_string(),
        runtime: "WASM".to_string(),
        enabled: true,
    }]);
    let headers = vec![("trace".to_string(), "t1".to_string()), ("runtime".to_string(), "old".to_string())];
    let (reply, out) = worker_reply(&steps[0], "msg-7", &headers);
    assert_eq!(reply.status, "received");
    assert_eq!(reply.skill_name, "skill.web");
    assert_eq!(reply.runtime, "wasm");
    assert_eq!(reply.request_topic, steps[0].binding.request_topic);
    assert_eq!(reply.worker_group, steps[0].binding.worker_group);
    assert_eq!(reply.request_message_id, "msg-7");
    assert_eq!(out, vec![("trace".to_string(), "t1".to_string()), ("runtime".to_string(), "wasm".to_string())]);
    let (_, added) = worker_reply(&steps[0], "msg-8", &vec![]);
    assert_eq!(added, vec![("runtime".to_string(), "wasm".to_string())]);
}
