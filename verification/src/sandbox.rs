//! Security sandbox: permission checks with an audit log, and resource limits.
//!
//! Resolving a path on disk (symlinks, the current directory) is done by the
//! caller, which hands the check a table of canonical paths; everything else
//! about the decision is made here.
use vstd::prelude::*;
use crate::clock::now_rfc3339;
use crate::manifest::{FileSystemPermission, MemoryPermission, NetworkPermission, Permission, SkillId};
use crate::text::{
    chars_of, eq_chars, has_prefix, has_suffix, lower_chars, lowercase, ends_with, starts_with_str,
    str_eq, string_of, strings_view,
};

verus! {

// ── Lexical path normalisation ───────────────────────────────────────

/// One component of a path, as `std::path::Path::components` yields it.
#[derive(Debug, PartialEq, Eq)]
pub enum PathComponent {
    /// A Windows prefix such as `C:`.
    Prefix(String),
    /// The root directory.
    RootDir,
    /// `.`
    CurDir,
    /// `..`
    ParentDir,
    /// A named component.
    Normal(String),
}

impl Clone for PathComponent {
    fn clone(&self) -> (c: Self)
        ensures
            c == *self,
    {
        match self {
            PathComponent::Prefix(s) => PathComponent::Prefix(s.clone()),
            PathComponent::RootDir => PathComponent::RootDir,
            PathComponent::CurDir => PathComponent::CurDir,
            PathComponent::ParentDir => PathComponent::ParentDir,
            PathComponent::Normal(s) => PathComponent::Normal(s.clone()),
        }
    }
}

/// One step of lexical normalisation: `.` is dropped, `..` removes the
/// previous named component (never a root or prefix), others are kept.
pub open spec fn normalize_step(out: Seq<PathComponent>, c: PathComponent) -> Seq<PathComponent> {
    match c {
        PathComponent::CurDir => out,
        PathComponent::ParentDir => if out.len() > 0 && out.last() is Normal {
            out.drop_last()
        } else {
            out
        },
        _ => out.push(c),
    }
}

/// Lexical normalisation of a component list.
pub open spec fn normalize_spec(cs: Seq<PathComponent>) -> Seq<PathComponent>
    decreases cs.len(),
{
    if cs.len() == 0 {
        cs
    } else {
        normalize_step(normalize_spec(cs.drop_last()), cs.last())
    }
}

/// Resolve `.` and `..` lexically (symlinks are not resolved).
pub fn normalize_path(components: &[PathComponent]) -> (out: Vec<PathComponent>)
    ensures
        out@ == normalize_spec(components@),
{
    let mut out: Vec<PathComponent> = Vec::new();
    let mut i: usize = 0;
    while i < components.len()
        invariant
            i <= components@.len(),
            out@ == normalize_spec(components@.take(i as int)),
        decreases components@.len() - i,
    {
        assert(components@.take(i + 1).drop_last() =~= components@.take(i as int));
        match &components[i] {
            PathComponent::CurDir => {},
            PathComponent::ParentDir => {
                if out.len() > 0 {
                    let last_is_normal = match &out[out.len() - 1] {
                        PathComponent::Normal(_) => true,
                        _ => false,
                    };
                    if last_is_normal {
                        out.pop();
                        assert(out@ =~= normalize_spec(components@.take(i as int)).drop_last());
                    }
                }
            },
            other => {
                out.push(other.clone());
            },
        }
        i += 1;
    }
    assert(components@.take(components@.len() as int) =~= components@);
    out
}

// ── Canonical path table ─────────────────────────────────────────────

/// Canonical forms of the raw path strings a check may ask about, each a
/// list of component names (or `None` when the path could not be resolved).
pub struct CanonicalPaths {
    pub entries: Vec<(String, Option<Vec<String>>)>,
}

/// The canonical components recorded for `raw` (the first entry for it).
pub open spec fn lookup_canonical(entries: Seq<(String, Option<Vec<String>>)>, raw: Seq<char>) -> Option<Seq<Seq<char>>>
    decreases entries.len(),
{
    if entries.len() == 0 {
        None
    } else if entries[0].0@ == raw {
        match entries[0].1 {
            Some(v) => Some(strings_view(v@)),
            None => None,
        }
    } else {
        lookup_canonical(entries.drop_first(), raw)
    }
}

/// `p` equals `prefix` or lies beneath it, component by component.
pub open spec fn components_under(p: Seq<Seq<char>>, prefix: Seq<Seq<char>>) -> bool {
    prefix.len() <= p.len() && p.subrange(0, prefix.len() as int) == prefix
}

/// `path` is under `allowed`: both resolve, and the canonical path equals
/// the canonical prefix or starts with it.
pub open spec fn path_under_spec(entries: Seq<(String, Option<Vec<String>>)>, path: Seq<char>, allowed: Seq<char>) -> bool {
    match (lookup_canonical(entries, path), lookup_canonical(entries, allowed)) {
        (Some(p), Some(q)) => components_under(p, q),
        _ => false,
    }
}

fn lookup_entry<'a>(entries: &'a [(String, Option<Vec<String>>)], raw: &str) -> (r: Option<&'a Vec<String>>)
    ensures
        r matches Some(v) ==> lookup_canonical(entries@, raw@) == Some(strings_view(v@)),
        r is None ==> lookup_canonical(entries@, raw@) is None,
{
    let mut i: usize = 0;
    assert(entries@.subrange(0, entries@.len() as int) =~= entries@);
    while i < entries.len()
        invariant
            i <= entries@.len(),
            lookup_canonical(entries@, raw@) == lookup_canonical(entries@.subrange(i as int, entries@.len() as int), raw@),
        decreases entries@.len() - i,
    {
        let ghost rest = entries@.subrange(i as int, entries@.len() as int);
        assert(rest.drop_first() =~= entries@.subrange(i + 1, entries@.len() as int));
        assert(rest[0] == entries@[i as int]);
        if str_eq(entries[i].0.as_str(), raw) {
            return match &entries[i].1 {
                Some(v) => Some(v),
                None => None,
            };
        }
        i += 1;
    }
    None
}

/// Whether `path` is under `allowed`, using the caller's canonical forms.
#[verifier::loop_isolation(false)]
pub fn path_is_under(path: &str, allowed: &str, paths: &CanonicalPaths) -> (r: bool)
    ensures
        r == path_under_spec(paths.entries@, path@, allowed@),
{
    let p = lookup_entry(paths.entries.as_slice(), path);
    let q = lookup_entry(paths.entries.as_slice(), allowed);
    match (p, q) {
        (Some(p), Some(q)) => {
            if q.len() > p.len() {
                return false;
            }
            let mut i: usize = 0;
            while i < q.len()
                invariant
                    q@.len() <= p@.len(),
                    i <= q@.len(),
                    forall|j: int| 0 <= j < i ==> p@[j]@ == q@[j]@,
                decreases q@.len() - i,
            {
                if !str_eq(p[i].as_str(), q[i].as_str()) {
                    let ghost pv = strings_view(p@);
                    let ghost qv = strings_view(q@);
                    assert(pv[i as int] == p@[i as int]@);
                    assert(qv[i as int] == q@[i as int]@);
                    assert(pv.subrange(0, qv.len() as int)[i as int] != qv[i as int]);
                    return false;
                }
                i += 1;
            }
            let ghost pv = strings_view(p@);
            let ghost qv = strings_view(q@);
            assert(pv.subrange(0, qv.len() as int) =~= qv);
            true
        },
        _ => false,
    }
}

// ── Domain matching ──────────────────────────────────────────────────

/// `s` without trailing `c` characters.
pub open spec fn strip_trailing(s: Seq<char>, c: char) -> Seq<char>
    decreases s.len(),
{
    if s.len() > 0 && s.last() == c {
        strip_trailing(s.drop_last(), c)
    } else {
        s
    }
}

/// Exact-or-subdomain match after removing trailing dots and lower-casing.
pub open spec fn domain_match_spec(domain: Seq<char>, allowed: Seq<char>) -> bool {
    let d = lowercase(strip_trailing(domain, '.'));
    let a = lowercase(strip_trailing(allowed, '.'));
    d.len() > 0 && a.len() > 0 && (d == a || has_suffix(d, seq!['.'] + a))
}

fn strip_trailing_dots(s: &str) -> (r: String)
    ensures
        r@ == strip_trailing(s@, '.'),
{
    let v = chars_of(s);
    let mut end: usize = v.len();
    assert(v@.take(end as int) =~= v@);
    while end > 0 && v[end - 1] == '.'
        invariant
            end <= v@.len(),
            strip_trailing(v@, '.') == strip_trailing(v@.take(end as int), '.'),
        decreases end,
    {
        assert(v@.take(end as int).drop_last() =~= v@.take(end - 1));
        end -= 1;
    }
    let r = crate::text::sub_chars(v.as_slice(), 0, end);
    assert(r@ =~= v@.take(end as int));
    string_of(r.as_slice())
}

/// Domain allow-list match: exact or a true subdomain only.
pub fn domain_matches_allowed(domain: &str, allowed: &str) -> (r: bool)
    ensures
        r == domain_match_spec(domain@, allowed@),
{
    let ds = strip_trailing_dots(domain);
    let d = lower_chars(ds.as_str());
    let als = strip_trailing_dots(allowed);
    let a = lower_chars(als.as_str());
    if d.len() == 0 || a.len() == 0 {
        return false;
    }
    if eq_chars(d.as_slice(), a.as_slice()) {
        return true;
    }
    let mut dotted: Vec<char> = Vec::new();
    dotted.push('.');
    crate::text::append_chars(&mut dotted, a.as_slice());
    assert(dotted@ =~= seq!['.'] + a@);
    ends_with(d.as_slice(), dotted.as_slice())
}

// ── Limits, actions and the sandbox ──────────────────────────────────

/// Resource limits for skill execution.
#[derive(Debug, Clone, Copy)]
pub struct ResourceLimits {
    pub max_memory_bytes: u64,
    pub max_cpu_ms: u64,
    pub max_concurrency: u32,
    pub network_bandwidth: Option<u64>,
    pub storage_quota: u64,
}

impl Default for ResourceLimits {
    fn default() -> (l: Self)
        ensures
            l.max_memory_bytes == 256 * 1024 * 1024,
            l.max_cpu_ms == 30_000,
            l.max_concurrency == 10,
            l.network_bandwidth is None,
            l.storage_quota == 100 * 1024 * 1024,
    {
        ResourceLimits {
            max_memory_bytes: 256 * 1024 * 1024,
            max_cpu_ms: 30_000,
            max_concurrency: 10,
            network_bandwidth: None,
            storage_quota: 100 * 1024 * 1024,
        }
    }
}

/// An action a skill wants to perform.
#[derive(Debug)]
pub struct AuditAction {
    pub kind: AuditActionKind,
}

impl Clone for AuditAction {
    fn clone(&self) -> (c: Self)
        ensures
            c == *self,
    {
        AuditAction { kind: self.kind.clone() }
    }
}

/// The kinds of audited actions.
#[derive(Debug)]
pub enum AuditActionKind {
    NetworkRequest { domain: String },
    FileRead { path: String },
    FileWrite { path: String },
    MemoryAccess { namespace: Option<String> },
    Other(String),
}

impl Clone for AuditActionKind {
    fn clone(&self) -> (c: Self)
        ensures
            c == *self,
    {
        match self {
            AuditActionKind::NetworkRequest { domain } => AuditActionKind::NetworkRequest { domain: domain.clone() },
            AuditActionKind::FileRead { path } => AuditActionKind::FileRead { path: path.clone() },
            AuditActionKind::FileWrite { path } => AuditActionKind::FileWrite { path: path.clone() },
            AuditActionKind::MemoryAccess { namespace } => AuditActionKind::MemoryAccess {
                namespace: match namespace {
                    Some(n) => Some(n.clone()),
                    None => None,
                },
            },
            AuditActionKind::Other(s) => AuditActionKind::Other(s.clone()),
        }
    }
}

/// One audit-log entry.
#[derive(Debug, Clone)]
pub struct AuditEntry {
    /// RFC 3339 time of the check.
    pub timestamp: String,
    pub action: AuditAction,
    pub allowed: bool,
}

/// A network request to `domain` is allowed by permission `p`.
pub open spec fn network_allows(p: Permission, domain: Seq<char>) -> bool {
    match p {
        Permission::Network(NetworkPermission::Full) => true,
        Permission::Network(NetworkPermission::LocalOnly) => domain == "localhost"@ || has_prefix(domain, "127."@),
        Permission::Network(NetworkPermission::Domains(ds)) => exists|k: int|
            0 <= k < ds@.len() && domain_match_spec(domain, #[trigger] ds@[k]@),
        _ => false,
    }
}

/// A read of `path` is allowed by permission `p`.
pub open spec fn read_allows(p: Permission, path: Seq<char>, entries: Seq<(String, Option<Vec<String>>)>) -> bool {
    match p {
        Permission::FileSystem(FileSystemPermission::Full) => true,
        Permission::FileSystem(FileSystemPermission::Read(roots)) => exists|k: int|
            0 <= k < roots@.len() && path_under_spec(entries, path, #[trigger] roots@[k]@),
        _ => false,
    }
}

/// A write of `path` is allowed by permission `p`.
pub open spec fn write_allows(p: Permission, path: Seq<char>, entries: Seq<(String, Option<Vec<String>>)>) -> bool {
    match p {
        Permission::FileSystem(FileSystemPermission::Full) => true,
        Permission::FileSystem(FileSystemPermission::Write(roots)) => exists|k: int|
            0 <= k < roots@.len() && path_under_spec(entries, path, #[trigger] roots@[k]@),
        _ => false,
    }
}

/// A memory access in `namespace` is allowed by permission `p`.
pub open spec fn memory_allows(p: Permission, namespace: Option<String>) -> bool {
    match p {
        Permission::Memory(MemoryPermission::ReadOnly) => true,
        Permission::Memory(MemoryPermission::ReadWrite) => true,
        Permission::Memory(MemoryPermission::Namespace(ns)) => match namespace {
            Some(n) => n@ == ns@,
            None => false,
        },
        _ => false,
    }
}

/// Whether the granted permissions allow an action: some permission allows
/// it; actions of kind `Other` are always allowed.
pub open spec fn allowed_spec(perms: Seq<Permission>, kind: AuditActionKind, entries: Seq<(String, Option<Vec<String>>)>) -> bool {
    match kind {
        AuditActionKind::NetworkRequest { domain } => exists|k: int| 0 <= k < perms.len() && network_allows(#[trigger] perms[k], domain@),
        AuditActionKind::FileRead { path } => exists|k: int| 0 <= k < perms.len() && read_allows(#[trigger] perms[k], path@, entries),
        AuditActionKind::FileWrite { path } => exists|k: int| 0 <= k < perms.len() && write_allows(#[trigger] perms[k], path@, entries),
        AuditActionKind::MemoryAccess { namespace } => exists|k: int| 0 <= k < perms.len() && memory_allows(#[trigger] perms[k], namespace),
        AuditActionKind::Other(_) => true,
    }
}

fn any_domain_matches(domain: &str, ds: &Vec<String>) -> (r: bool)
    ensures
        r == exists|k: int| 0 <= k < ds@.len() && domain_match_spec(domain@, #[trigger] ds@[k]@),
{
    let mut k: usize = 0;
    while k < ds.len()
        invariant
            k <= ds@.len(),
            forall|j: int| 0 <= j < k ==> !domain_match_spec(domain@, #[trigger] ds@[j]@),
        decreases ds@.len() - k,
    {
        if domain_matches_allowed(domain, ds[k].as_str()) {
            return true;
        }
        k += 1;
    }
    false
}

fn any_root_contains(path: &str, roots: &Vec<String>, paths: &CanonicalPaths) -> (r: bool)
    ensures
        r == exists|k: int| 0 <= k < roots@.len() && path_under_spec(paths.entries@, path@, #[trigger] roots@[k]@),
{
    let mut k: usize = 0;
    while k < roots.len()
        invariant
            k <= roots@.len(),
            forall|j: int| 0 <= j < k ==> !path_under_spec(paths.entries@, path@, #[trigger] roots@[j]@),
        decreases roots@.len() - k,
    {
        if path_is_under(path, roots[k].as_str(), paths) {
            return true;
        }
        k += 1;
    }
    false
}

fn permission_allows(p: &Permission, kind: &AuditActionKind, paths: &CanonicalPaths) -> (r: bool)
    ensures
        r == match *kind {
            AuditActionKind::NetworkRequest { domain } => network_allows(*p, domain@),
            AuditActionKind::FileRead { path } => read_allows(*p, path@, paths.entries@),
            AuditActionKind::FileWrite { path } => write_allows(*p, path@, paths.entries@),
            AuditActionKind::MemoryAccess { namespace } => memory_allows(*p, namespace),
            AuditActionKind::Other(_) => true,
        },
{
    proof {
        reveal_strlit("localhost");
    }
    match kind {
        AuditActionKind::NetworkRequest { domain } => match p {
            Permission::Network(NetworkPermission::Full) => true,
            Permission::Network(NetworkPermission::LocalOnly) => {
                str_eq(domain.as_str(), "localhost") || {
                    let dc = chars_of(domain.as_str());
                    starts_with_str(dc.as_slice(), "127.")
                }
            },
            Permission::Network(NetworkPermission::Domains(ds)) => any_domain_matches(domain.as_str(), ds),
            _ => false,
        },
        AuditActionKind::FileRead { path } => match p {
            Permission::FileSystem(FileSystemPermission::Full) => true,
            Permission::FileSystem(FileSystemPermission::Read(roots)) => any_root_contains(path.as_str(), roots, paths),
            _ => false,
        },
        AuditActionKind::FileWrite { path } => match p {
            Permission::FileSystem(FileSystemPermission::Full) => true,
            Permission::FileSystem(FileSystemPermission::Write(roots)) => any_root_contains(path.as_str(), roots, paths),
            _ => false,
        },
        AuditActionKind::MemoryAccess { namespace } => match p {
            Permission::Memory(MemoryPermission::ReadOnly) => true,
            Permission::Memory(MemoryPermission::ReadWrite) => true,
            Permission::Memory(MemoryPermission::Namespace(ns)) => match namespace {
                Some(n) => str_eq(n.as_str(), ns.as_str()),
                None => false,
            },
            _ => false,
        },
        AuditActionKind::Other(_) => true,
    }
}

/// Sandbox of one skill: what it was granted, its limits, and an audit log
/// of every permission check.
pub struct SkillSandbox {
    pub skill_id: SkillId,
    pub granted_permissions: Vec<Permission>,
    pub resource_limits: ResourceLimits,
    pub audit_log: Vec<AuditEntry>,
}

impl SkillSandbox {
    /// A sandbox with the given grants and an empty audit log.
    pub fn new(skill_id: SkillId, granted_permissions: Vec<Permission>, resource_limits: ResourceLimits) -> (s: Self)
        ensures
            s.skill_id == skill_id,
            s.granted_permissions@ == granted_permissions@,
            s.resource_limits == resource_limits,
            s.audit_log@.len() == 0,
    {
        SkillSandbox { skill_id, granted_permissions, resource_limits, audit_log: Vec::new() }
    }

    /// Whether the granted permissions allow `action` (no logging).
    pub fn check_permission_inner(&self, action: &AuditAction, paths: &CanonicalPaths) -> (r: bool)
        ensures
            r == allowed_spec(self.granted_permissions@, action.kind, paths.entries@),
    {
        if let AuditActionKind::Other(_) = &action.kind {
            return true;
        }
        let mut k: usize = 0;
        while k < self.granted_permissions.len()
            invariant
                k <= self.granted_permissions@.len(),
                !(action.kind is Other),
                forall|j: int| 0 <= j < k ==> !(match action.kind {
                    AuditActionKind::NetworkRequest { domain } => network_allows(#[trigger] self.granted_permissions@[j], domain@),
                    AuditActionKind::FileRead { path } => read_allows(self.granted_permissions@[j], path@, paths.entries@),
                    AuditActionKind::FileWrite { path } => write_allows(self.granted_permissions@[j], path@, paths.entries@),
                    AuditActionKind::MemoryAccess { namespace } => memory_allows(self.granted_permissions@[j], namespace),
                    AuditActionKind::Other(_) => true,
                }),
            decreases self.granted_permissions@.len() - k,
        {
            if permission_allows(&self.granted_permissions[k], &action.kind, paths) {
                return true;
            }
            k += 1;
        }
        false
    }

    /// Check whether `action` is permitted and record the decision in the
    /// audit log.
    pub fn check_permission(&mut self, action: &AuditAction, paths: &CanonicalPaths) -> (r: bool)
        ensures
            r == allowed_spec(old(self).granted_permissions@, action.kind, paths.entries@),
            final(self).audit_log@.len() == old(self).audit_log@.len() + 1,
            final(self).audit_log@.drop_last() == old(self).audit_log@,
            final(self).audit_log@.last().allowed == r,
            final(self).audit_log@.last().action == *action,
            final(self).granted_permissions == old(self).granted_permissions,
            final(self).skill_id == old(self).skill_id,
            final(self).resource_limits == old(self).resource_limits,
    {
        let allowed = self.check_permission_inner(action, paths);
        let entry = AuditEntry { timestamp: now_rfc3339(), action: action.clone(), allowed };
        self.audit_log.push(entry);
        assert(self.audit_log@.drop_last() =~= old(self).audit_log@);
        allowed
    }
}


/// Actions outside the permission kinds are always allowed.
pub proof fn lemma_other_always_allowed(perms: Seq<Permission>, what: String, entries: Seq<(String, Option<Vec<String>>)>)
    ensures
        allowed_spec(perms, AuditActionKind::Other(what), entries),
{
}

/// Granting more permissions never takes an allowed action away.
pub proof fn lemma_more_grants_allow_more(
    perms: Seq<Permission>,
    more: Seq<Permission>,
    kind: AuditActionKind,
    entries: Seq<(String, Option<Vec<String>>)>,
)
    requires
        allowed_spec(perms, kind, entries),
    ensures
        allowed_spec(perms + more, kind, entries),
{
    match kind {
        AuditActionKind::NetworkRequest { domain } => {
            let k = choose|k: int| 0 <= k < perms.len() && network_allows(#[trigger] perms[k], domain@);
            assert((perms + more)[k] == perms[k]);
        },
        AuditActionKind::FileRead { path } => {
            let k = choose|k: int| 0 <= k < perms.len() && read_allows(#[trigger] perms[k], path@, entries);
            assert((perms + more)[k] == perms[k]);
        },
        AuditActionKind::FileWrite { path } => {
            let k = choose|k: int| 0 <= k < perms.len() && write_allows(#[trigger] perms[k], path@, entries);
            assert((perms + more)[k] == perms[k]);
        },
        AuditActionKind::MemoryAccess { namespace } => {
            let k = choose|k: int| 0 <= k < perms.len() && memory_allows(#[trigger] perms[k], namespace);
            assert((perms + more)[k] == perms[k]);
        },
        AuditActionKind::Other(_) => {},
    }
}

/// With no permissions granted, only actions outside the permission kinds
/// are allowed.
pub proof fn lemma_no_grants_deny(kind: AuditActionKind, entries: Seq<(String, Option<Vec<String>>)>)
    ensures
        allowed_spec(Seq::empty(), kind, entries) == (kind is Other),
{
}

/// A domain always matches itself when it is not empty after removing
/// trailing dots, and a subdomain of an allowed domain matches it.
pub proof fn lemma_domain_matches_self_and_subdomains(domain: Seq<char>, allowed: Seq<char>)
    ensures
        lowercase(strip_trailing(domain, '.')).len() > 0 ==> domain_match_spec(domain, domain),
        ({
            let d = lowercase(strip_trailing(domain, '.'));
            let a = lowercase(strip_trailing(allowed, '.'));
            a.len() > 0 && d.len() > a.len() && d.subrange(d.len() - a.len() - 1, d.len() as int) == seq!['.'] + a
        }) ==> domain_match_spec(domain, allowed),
{
}

/// Memory grants: a read-only or read-write grant allows every memory
/// access, whatever its namespace; a namespace grant allows access to that
/// namespace; with no memory grant at all, memory access is denied.
pub proof fn lemma_memory_grants(perms: Seq<Permission>, namespace: Option<String>, entries: Seq<(String, Option<Vec<String>>)>)
    ensures
        (exists|k: int| 0 <= k < perms.len() && (#[trigger] perms[k] == Permission::Memory(MemoryPermission::ReadOnly)
            || perms[k] == Permission::Memory(MemoryPermission::ReadWrite)))
            ==> allowed_spec(perms, AuditActionKind::MemoryAccess { namespace }, entries),
        (exists|k: int| 0 <= k < perms.len() && (#[trigger] perms[k] matches Permission::Memory(MemoryPermission::Namespace(ns))
            && namespace matches Some(n) && n@ == ns@))
            ==> allowed_spec(perms, AuditActionKind::MemoryAccess { namespace }, entries),
        (forall|k: int| 0 <= k < perms.len() ==> !(#[trigger] perms[k] is Memory))
            ==> !allowed_spec(perms, AuditActionKind::MemoryAccess { namespace }, entries),
{
    if exists|k: int| 0 <= k < perms.len() && (#[trigger] perms[k] == Permission::Memory(MemoryPermission::ReadOnly)
        || perms[k] == Permission::Memory(MemoryPermission::ReadWrite)) {
        let k = choose|k: int| 0 <= k < perms.len() && (#[trigger] perms[k] == Permission::Memory(MemoryPermission::ReadOnly)
            || perms[k] == Permission::Memory(MemoryPermission::ReadWrite));
        assert(memory_allows(perms[k], namespace));
    }
    if exists|k: int| 0 <= k < perms.len() && (#[trigger] perms[k] matches Permission::Memory(MemoryPermission::Namespace(ns))
        && namespace matches Some(n) && n@ == ns@) {
        let k = choose|k: int| 0 <= k < perms.len() && (#[trigger] perms[k] matches Permission::Memory(MemoryPermission::Namespace(ns))
            && namespace matches Some(n) && n@ == ns@);
        assert(memory_allows(perms[k], namespace));
    }
}

} // verus!
