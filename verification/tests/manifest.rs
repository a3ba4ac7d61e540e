use abigail::manifest::{
    manifest_from_sections, parse_permissions, CapabilitySection, FileSystemPermission, MemoryPermission,
    NetworkPermission, PermInner, PermLeaf, PermValue, Permission, RuntimeSection, SecretSection, SkillManifestSection,
};
use std::collections::HashMap;

fn section(id: &str) -> SkillManifestSection {
    SkillManifestSection {
        id: id.into(),
        name: "FS Test".into(),
        version: "0.1.0".into(),
        description: "Test".into(),
        license: None,
        category: None,
        keywords: vec![],
    }
}

fn table(key: &str, inner: PermInner) -> PermValue {
    PermValue::Table(vec![(key.to_string(), inner)])
}

fn leaf_table(entries: Vec<(&str, Vec<&str>)>) -> PermInner {
    PermInner::Table(
        entries
            .into_iter()
            .map(|(k, v)| (k.to_string(), PermLeaf::Array(v.into_iter().map(|s| Some(s.to_string())).collect())))
            .collect(),
    )
}

fn manifest(perms: Vec<PermValue>) -> Vec<Permission> {
    manifest_from_sections(section("test.fs"), None, &vec![], &perms, &vec![], HashMap::new()).permissions
}

#[test]
fn parse_filesystem_read_permission() {
    let perms = manifest(vec![table("FileSystem", leaf_table(vec![("Read", vec!["~"])]))]);
    assert!(perms.contains(&Permission::FileSystem(FileSystemPermission::Read(vec!["~".to_string()]))));
}

#[test]
fn parse_filesystem_write_permission() {
    let perms = manifest(vec![table("FileSystem", leaf_table(vec![("Write", vec!["/tmp"])]))]);
    assert!(perms.contains(&Permission::FileSystem(FileSystemPermission::Write(vec!["/tmp".to_string()]))));
}

#[test]
fn parse_filesystem_full_permission() {
    let perms = manifest(vec![table("FileSystem", PermInner::Str("Full".into()))]);
    assert!(perms.contains(&Permission::FileSystem(FileSystemPermission::Full)));
}

#[test]
fn parse_shell_execute_permission() {
    let perms = manifest(vec![PermValue::Str("ShellExecute".into())]);
    assert!(perms.contains(&Permission::ShellExecute));
}

#[test]
fn parse_filesystem_read_and_write_combined() {
    let perms = manifest(vec![table("FileSystem", leaf_table(vec![("Read", vec!["~"]), ("Write", vec!["~"])]))]);
    assert_eq!(perms.len(), 2);
    assert!(perms.contains(&Permission::FileSystem(FileSystemPermission::Read(vec!["~".to_string()]))));
    assert!(perms.contains(&Permission::FileSystem(FileSystemPermission::Write(vec!["~".to_string()]))));
}

#[test]
fn parse_network_domains_still_works() {
    let perms = manifest(vec![table("Network", leaf_table(vec![("Domains", vec!["api.example.com"])]))]);
    assert!(perms.contains(&Permission::Network(NetworkPermission::Domains(vec!["api.example.com".to_string()]))));
}

#[test]
fn other_network_values_mean_full_network_and_memory_rules() {
    let perms = parse_permissions(&[
        table("Network", PermInner::Str("anything".into())),
        table("Memory", PermInner::Str("notes".into())),
        table("Memory", PermInner::Other),
        PermValue::Str("Camera".into()),
        PermValue::Other,
    ]);
    assert_eq!(
        perms,
        vec![
            Permission::Network(NetworkPermission::Full),
            Permission::Memory(MemoryPermission::Namespace("notes".into())),
            Permission::Memory(MemoryPermission::ReadWrite),
        ]
    );
}

#[test]
fn array_items_that_are_not_strings_are_skipped() {
    let inner = PermInner::Table(vec![("Domains".to_string(), PermLeaf::Array(vec![Some("a.com".into()), None]))]);
    let perms = parse_permissions(&[table("Network", inner)]);
    assert_eq!(perms, vec![Permission::Network(NetworkPermission::Domains(vec!["a.com".to_string()]))]);
}

#[test]
fn manifest_defaults() {
    let m = manifest_from_sections(
        section("x"),
        None,
        &vec![CapabilitySection { capability: "search".into(), version: None, features: vec![] }],
        &[],
        &vec![SecretSection { name: "token".into(), description: None, required: None }],
        HashMap::new(),
    );
    assert_eq!(m.category, "General");
    assert_eq!(m.runtime, "Native");
    assert_eq!(m.min_abigail_version, "0.1.0");
    assert_eq!(m.platforms, vec!["All".to_string()]);
    assert_eq!(m.capabilities[0].version, "1.0");
    assert_eq!(m.secrets[0].description, "");
    assert!(m.secrets[0].required);
}

#[test]
fn manifest_runtime_section_is_used() {
    let rt = RuntimeSection { runtime: "Wasm".into(), min_abigail_version: Some("0.3.0".into()), platforms: vec!["Linux".into()] };
    let m = manifest_from_sections(section("x"), Some(rt), &vec![], &[], &vec![], HashMap::new());
    assert_eq!(m.runtime, "Wasm");
    assert_eq!(m.min_abigail_version, "0.3.0");
    assert_eq!(m.platforms, vec!["Linux".to_string()]);
}
