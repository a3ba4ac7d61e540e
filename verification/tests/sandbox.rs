use abigail::executor::{audit_actions_for_tool, authorize_named_tool, authorize_tool_call, find_tool};
use abigail::manifest::{FileSystemPermission, MemoryPermission, NetworkPermission, Permission, SkillId};
use abigail::sandbox::{
    normalize_path, path_is_under, AuditAction, AuditActionKind, CanonicalPaths, PathComponent, ResourceLimits,
    SkillSandbox,
};
use abigail::skill::{CostEstimate, SkillError, ToolDescriptor};

fn parts(v: &[&str]) -> Option<Vec<String>> {
    Some(v.iter().map(|s| s.to_string()).collect())
}

fn table() -> CanonicalPaths {
    CanonicalPaths {
        entries: vec![
            ("/tmp/x/allowed".to_string(), parts(&["/", "tmp", "x", "allowed"])),
            ("/tmp/x/allowed/new/deep/file.txt".to_string(), parts(&["/", "tmp", "x", "allowed", "new", "deep", "file.txt"])),
            ("/tmp/x/allowed/../outside/secret.txt".to_string(), parts(&["/", "tmp", "x", "outside", "secret.txt"])),
            ("/tmp/x/allowed-evil/f".to_string(), parts(&["/", "tmp", "x", "allowed-evil", "f"])),
            ("/nowhere".to_string(), None),
        ],
    }
}

#[test]
fn path_is_under_allows_nested_nonexistent_write_target() {
    assert!(path_is_under("/tmp/x/allowed/new/deep/file.txt", "/tmp/x/allowed", &table()));
    assert!(path_is_under("/tmp/x/allowed", "/tmp/x/allowed", &table()));
}

#[test]
fn path_is_under_blocks_parent_traversal_outside_root() {
    assert!(!path_is_under("/tmp/x/allowed/../outside/secret.txt", "/tmp/x/allowed", &table()));
}

#[test]
fn path_prefix_is_by_component() {
    assert!(!path_is_under("/tmp/x/allowed-evil/f", "/tmp/x/allowed", &table()));
    assert!(!path_is_under("/nowhere", "/tmp/x/allowed", &table()));
    assert!(!path_is_under("/unknown", "/tmp/x/allowed", &table()));
}

#[test]
fn lexical_normalisation() {
    let p = vec![
        PathComponent::RootDir,
        PathComponent::Normal("a".into()),
        PathComponent::CurDir,
        PathComponent::Normal("b".into()),
        PathComponent::ParentDir,
        PathComponent::Normal("c".into()),
    ];
    assert_eq!(normalize_path(&p), vec![PathComponent::RootDir, PathComponent::Normal("a".into()), PathComponent::Normal("c".into())]);
    // `..` never climbs above the root.
    let q = vec![PathComponent::RootDir, PathComponent::ParentDir, PathComponent::Normal("etc".into())];
    assert_eq!(normalize_path(&q), vec![PathComponent::RootDir, PathComponent::Normal("etc".into())]);
}

fn sandbox(perms: Vec<Permission>) -> SkillSandbox {
    SkillSandbox::new(SkillId("test.skill".into()), perms, ResourceLimits::default())
}

fn action(kind: AuditActionKind) -> AuditAction {
    AuditAction { kind }
}

#[test]
fn permission_checks_are_logged() {
    let mut s = sandbox(vec![Permission::Network(NetworkPermission::Domains(vec!["api.example.com".into()]))]);
    assert!(s.check_permission(&action(AuditActionKind::NetworkRequest { domain: "v2.api.example.com".into() }), &table()));
    assert!(!s.check_permission(&action(AuditActionKind::NetworkRequest { domain: "evil.com".into() }), &table()));
    assert!(s.check_permission(&action(AuditActionKind::Other("anything".into())), &table()));
    assert_eq!(s.audit_log.len(), 3);
    assert!(s.audit_log[0].allowed);
    assert!(!s.audit_log[1].allowed);
}

#[test]
fn file_and_memory_permissions() {
    let mut s = sandbox(vec![
        Permission::FileSystem(FileSystemPermission::Read(vec!["/tmp/x/allowed".into()])),
        Permission::Memory(MemoryPermission::Namespace("notes".into())),
    ]);
    let t = table();
    assert!(s.check_permission(&action(AuditActionKind::FileRead { path: "/tmp/x/allowed/new/deep/file.txt".into() }), &t));
    assert!(!s.check_permission(&action(AuditActionKind::FileWrite { path: "/tmp/x/allowed/new/deep/file.txt".into() }), &t));
    assert!(s.check_permission(&action(AuditActionKind::MemoryAccess { namespace: Some("notes".into()) }), &t));
    assert!(!s.check_permission(&action(AuditActionKind::MemoryAccess { namespace: None }), &t));
}

#[test]
fn local_only_network() {
    let mut s = sandbox(vec![Permission::Network(NetworkPermission::LocalOnly)]);
    assert!(s.check_permission(&action(AuditActionKind::NetworkRequest { domain: "localhost".into() }), &table()));
    assert!(s.check_permission(&action(AuditActionKind::NetworkRequest { domain: "127.0.0.1".into() }), &table()));
    assert!(!s.check_permission(&action(AuditActionKind::NetworkRequest { domain: "example.com".into() }), &table()));
}

fn tool(name: &str, perms: Vec<Permission>, confirm: bool) -> ToolDescriptor {
    ToolDescriptor {
        name: name.into(),
        description: String::new(),
        parameters: serde_json::from_str("{}").unwrap(),
        returns: serde_json::from_str("{}").unwrap(),
        cost_estimate: CostEstimate::default(),
        required_permissions: perms,
        autonomous: false,
        requires_confirmation: confirm,
    }
}

#[test]
fn confirmation_required_blocks_unconfirmed() {
    let t = tool("danger", vec![], true);
    let mut s = sandbox(vec![]);
    match authorize_tool_call(&t, false, &mut s, &table()) {
        Err(SkillError::ConfirmationRequired(m)) => assert!(m.contains("requires explicit mentor confirmation")),
        other => panic!("unexpected {:?}", other),
    }
    assert!(s.audit_log.is_empty());
}

#[test]
fn confirmation_required_passes_when_confirmed() {
    let t = tool("danger", vec![], true);
    let mut s = sandbox(vec![]);
    assert!(authorize_tool_call(&t, true, &mut s, &table()).is_ok());
}

#[test]
fn executor_denies_network_when_not_granted() {
    let t = tool("fetch", vec![Permission::Network(NetworkPermission::Full)], false);
    let mut s = sandbox(vec![]);
    match authorize_tool_call(&t, false, &mut s, &table()) {
        Err(SkillError::PermissionDenied(m)) => {
            assert_eq!(m, "Tool fetch requires permission that is not granted for this skill")
        }
        other => panic!("unexpected {:?}", other),
    }
    assert_eq!(s.audit_log.len(), 1);
    assert!(!s.audit_log[0].allowed);
    match &s.audit_log[0].action.kind {
        AuditActionKind::NetworkRequest { domain } => assert_eq!(domain, "any"),
        other => panic!("unexpected {:?}", other),
    }
}

#[test]
fn network_permission_granted() {
    let t = tool("fetch", vec![Permission::Network(NetworkPermission::Full)], false);
    let mut s = sandbox(vec![Permission::Network(NetworkPermission::Full)]);
    assert!(authorize_tool_call(&t, false, &mut s, &table()).is_ok());
    assert_eq!(s.audit_log.len(), 1);
}

#[test]
fn audit_actions_follow_required_permissions() {
    let actions = audit_actions_for_tool("t", &[Permission::Network(NetworkPermission::Full), Permission::ShellExecute]);
    assert!(!actions.is_empty());
    let tools = vec![tool("a", vec![], false), tool("b", vec![], false)];
    assert_eq!(find_tool(&tools, "b"), Some(1));
    assert_eq!(find_tool(&tools, "c"), None);
}

#[test]
fn named_tool_is_looked_up_then_authorized() {
    let tools = vec![
        tool("read", vec![], false),
        tool("fetch", vec![Permission::Network(NetworkPermission::Full)], false),
    ];
    let mut s = sandbox(vec![Permission::Network(NetworkPermission::Full)]);
    assert_eq!(authorize_named_tool(&tools, "fetch", false, &mut s, &table()).unwrap(), 1);
    assert_eq!(s.audit_log.len(), 1);
    match authorize_named_tool(&tools, "nope", false, &mut s, &table()) {
        Err(SkillError::ToolFailed(m)) => assert_eq!(m, "Unknown tool: nope"),
        other => panic!("unexpected {:?}", other),
    }
    assert_eq!(s.audit_log.len(), 1);
}
