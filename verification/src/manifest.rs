//! Skill manifest types.
use vstd::prelude::*;
use std::collections::HashMap;

verus! {

/// Declares `serde_json::Value` so that manifests can carry configuration
/// defaults through the library unchanged.
#[verifier::external_type_specification]
#[verifier::external_body]
pub struct ExJsonValue(serde_json::Value);

/// Identifier of a skill.
#[derive(Debug, Clone, PartialEq, Eq, Hash)]
pub struct SkillId(pub String);

/// A capability a skill provides.
#[derive(Debug, Clone)]
pub struct CapabilityDescriptor {
    pub capability_type: String,
    pub version: String,
}

/// A permission a skill may be granted.
#[derive(Debug, Clone, PartialEq, Eq, Hash)]
pub enum Permission {
    Network(NetworkPermission),
    FileSystem(FileSystemPermission),
    Memory(MemoryPermission),
    Notifications,
    Clipboard,
    Microphone,
    Camera,
    ScreenCapture,
    ShellExecute,
    SkillInteraction(String),
}

/// Network access scope.
#[derive(Debug, Clone, PartialEq, Eq, Hash)]
pub enum NetworkPermission {
    /// Only these domains (and their subdomains).
    Domains(Vec<String>),
    /// Any host.
    Full,
    /// Only the local machine.
    LocalOnly,
}

/// File-system access scope.
#[derive(Debug, Clone, PartialEq, Eq, Hash)]
pub enum FileSystemPermission {
    /// Read under these roots.
    Read(Vec<String>),
    /// Write under these roots.
    Write(Vec<String>),
    /// Anything.
    Full,
}

/// Memory access scope.
#[derive(Debug, Clone, PartialEq, Eq, Hash)]
pub enum MemoryPermission {
    ReadOnly,
    ReadWrite,
    /// Only this namespace.
    Namespace(String),
}

/// A secret a skill needs.
#[derive(Debug, Clone)]
pub struct SecretDescriptor {
    pub name: String,
    pub description: String,
    pub required: bool,
}

/// A skill's manifest.
#[derive(Debug, Clone)]
pub struct SkillManifest {
    pub id: SkillId,
    pub name: String,
    pub version: String,
    pub description: String,
    pub license: Option<String>,
    pub category: String,
    pub keywords: Vec<String>,
    pub runtime: String,
    pub min_abigail_version: String,
    pub platforms: Vec<String>,
    pub capabilities: Vec<CapabilityDescriptor>,
    pub permissions: Vec<Permission>,
    pub secrets: Vec<SecretDescriptor>,
    pub config_defaults: HashMap<String, serde_json::Value>,
}

/// `[skill]` section of a `skill.toml` file.
#[derive(Debug)]
pub struct SkillManifestSection {
    pub id: String,
    pub name: String,
    pub version: String,
    pub description: String,
    pub license: Option<String>,
    pub category: Option<String>,
    pub keywords: Vec<String>,
}

/// `[author]` section.
#[derive(Debug)]
pub struct AuthorSection {
    pub name: Option<String>,
    pub email: Option<String>,
}

/// `[runtime]` section.
#[derive(Debug)]
pub struct RuntimeSection {
    pub runtime: String,
    pub min_abigail_version: Option<String>,
    pub platforms: Vec<String>,
}

/// One `[[capabilities]]` entry.
#[derive(Debug)]
pub struct CapabilitySection {
    pub capability: String,
    pub version: Option<String>,
    pub features: Vec<String>,
}

/// One `[[secrets]]` entry.
#[derive(Debug)]
pub struct SecretSection {
    pub name: String,
    pub description: Option<String>,
    pub required: Option<bool>,
}

/// The secret names a manifest declares.
pub open spec fn secret_names(m: SkillManifest) -> Seq<Seq<char>> {
    m.secrets@.map_values(|s: SecretDescriptor| s.name@)
}

impl SkillId {
    /// The identifier text.
    pub fn as_str(&self) -> (s: &str)
        ensures
            s@ == self.0@,
    {
        self.0.as_str()
    }
}

/// Tag and contents of a permission: 0 network domains, 1 full network, 2
/// local network, 3 read roots, 4 write roots, 5 full file system, 6 read-only
/// memory, 7 read-write memory, 8 memory namespace, 9 notifications, 10
/// clipboard, 11 microphone, 12 camera, 13 screen capture, 14 shell, 15 skill
/// interaction.
pub open spec fn perm_view(p: Permission) -> (int, Seq<Seq<char>>, Seq<char>) {
    match p {
        Permission::Network(NetworkPermission::Domains(ds)) => (0, ds@.map_values(|d: String| d@), Seq::empty()),
        Permission::Network(NetworkPermission::Full) => (1, Seq::empty(), Seq::empty()),
        Permission::Network(NetworkPermission::LocalOnly) => (2, Seq::empty(), Seq::empty()),
        Permission::FileSystem(FileSystemPermission::Read(ps)) => (3, ps@.map_values(|d: String| d@), Seq::empty()),
        Permission::FileSystem(FileSystemPermission::Write(ps)) => (4, ps@.map_values(|d: String| d@), Seq::empty()),
        Permission::FileSystem(FileSystemPermission::Full) => (5, Seq::empty(), Seq::empty()),
        Permission::Memory(MemoryPermission::ReadOnly) => (6, Seq::empty(), Seq::empty()),
        Permission::Memory(MemoryPermission::ReadWrite) => (7, Seq::empty(), Seq::empty()),
        Permission::Memory(MemoryPermission::Namespace(n)) => (8, Seq::empty(), n@),
        Permission::Notifications => (9, Seq::empty(), Seq::empty()),
        Permission::Clipboard => (10, Seq::empty(), Seq::empty()),
        Permission::Microphone => (11, Seq::empty(), Seq::empty()),
        Permission::Camera => (12, Seq::empty(), Seq::empty()),
        Permission::ScreenCapture => (13, Seq::empty(), Seq::empty()),
        Permission::ShellExecute => (14, Seq::empty(), Seq::empty()),
        Permission::SkillInteraction(s) => (15, Seq::empty(), s@),
    }
}

/// A value two tables deep in a permission entry: an array (its string
/// items, `None` for others) or anything else.
#[derive(Debug)]
pub enum PermLeaf {
    Array(Vec<Option<String>>),
    Other,
}

/// A value one table deep in a permission entry.
#[derive(Debug)]
pub enum PermInner {
    Str(String),
    Table(Vec<(String, PermLeaf)>),
    Other,
}

/// The value of one `[[permissions]]` entry's `permission` key.
#[derive(Debug)]
pub enum PermValue {
    Str(String),
    Table(Vec<(String, PermInner)>),
    Other,
}

/// The value under `key` (first match).
pub open spec fn inner_get(t: Seq<(String, PermInner)>, key: Seq<char>) -> Option<PermInner>
    decreases t.len(),
{
    if t.len() == 0 {
        None
    } else if t[0].0@ == key {
        Some(t[0].1)
    } else {
        inner_get(t.drop_first(), key)
    }
}

/// The value under `key` (first match).
pub open spec fn leaf_get(t: Seq<(String, PermLeaf)>, key: Seq<char>) -> Option<PermLeaf>
    decreases t.len(),
{
    if t.len() == 0 {
        None
    } else if t[0].0@ == key {
        Some(t[0].1)
    } else {
        leaf_get(t.drop_first(), key)
    }
}

/// The string items of an array.
pub open spec fn string_items(items: Seq<Option<String>>) -> Seq<Seq<char>>
    decreases items.len(),
{
    if items.len() == 0 {
        Seq::empty()
    } else {
        let rest = string_items(items.drop_last());
        match items.last() {
            Some(s) => rest.push(s@),
            None => rest,
        }
    }
}

/// The network permission of an entry's table: a `Domains` array gives
/// those domains; any other `Network` value gives full network.
pub open spec fn network_part(t: Seq<(String, PermInner)>) -> Seq<(int, Seq<Seq<char>>, Seq<char>)> {
    match inner_get(t, "Network"@) {
        Some(PermInner::Table(nt)) => match leaf_get(nt@, "Domains"@) {
            Some(PermLeaf::Array(items)) => seq![(0int, string_items(items@), Seq::<char>::empty())],
            _ => seq![(1int, Seq::<Seq<char>>::empty(), Seq::<char>::empty())],
        },
        Some(_) => seq![(1int, Seq::<Seq<char>>::empty(), Seq::<char>::empty())],
        None => Seq::empty(),
    }
}

/// The file-system permissions of an entry's table: `"Full"`, or `Read`
/// and `Write` arrays of roots.
pub open spec fn file_system_part(t: Seq<(String, PermInner)>) -> Seq<(int, Seq<Seq<char>>, Seq<char>)> {
    match inner_get(t, "FileSystem"@) {
        Some(PermInner::Str(s)) => if s@ == "Full"@ {
            seq![(5int, Seq::<Seq<char>>::empty(), Seq::<char>::empty())]
        } else {
            Seq::empty()
        },
        Some(PermInner::Table(ft)) => (match leaf_get(ft@, "Read"@) {
            Some(PermLeaf::Array(items)) => seq![(3int, string_items(items@), Seq::<char>::empty())],
            _ => Seq::empty(),
        }) + (match leaf_get(ft@, "Write"@) {
            Some(PermLeaf::Array(items)) => seq![(4int, string_items(items@), Seq::<char>::empty())],
            _ => Seq::empty(),
        }),
        _ => Seq::empty(),
    }
}

/// The memory permission of an entry's table: a string names a namespace;
/// any other value is read-write.
pub open spec fn memory_part(t: Seq<(String, PermInner)>) -> Seq<(int, Seq<Seq<char>>, Seq<char>)> {
    match inner_get(t, "Memory"@) {
        Some(PermInner::Str(s)) => seq![(8int, Seq::<Seq<char>>::empty(), s@)],
        Some(_) => seq![(7int, Seq::<Seq<char>>::empty(), Seq::<char>::empty())],
        None => Seq::empty(),
    }
}

/// The permissions one entry declares: `"ShellExecute"` as a string, or a
/// table with network, file-system and memory parts, in that order.
pub open spec fn entry_perms(v: PermValue) -> Seq<(int, Seq<Seq<char>>, Seq<char>)> {
    match v {
        PermValue::Str(s) => if s@ == "ShellExecute"@ {
            seq![(14int, Seq::<Seq<char>>::empty(), Seq::<char>::empty())]
        } else {
            Seq::empty()
        },
        PermValue::Table(t) => network_part(t@) + file_system_part(t@) + memory_part(t@),
        PermValue::Other => Seq::empty(),
    }
}

/// The permissions all entries declare, in order.
pub open spec fn entries_perms(vs: Seq<PermValue>) -> Seq<(int, Seq<Seq<char>>, Seq<char>)>
    decreases vs.len(),
{
    if vs.len() == 0 {
        Seq::empty()
    } else {
        entries_perms(vs.drop_last()) + entry_perms(vs.last())
    }
}

fn find_inner(t: &Vec<(String, PermInner)>, key: &str) -> (r: Option<usize>)
    ensures
        r is None ==> inner_get(t@, key@) is None,
        r matches Some(i) ==> i < t@.len() && inner_get(t@, key@) == Some(t@[i as int].1),
{
    let mut i: usize = 0;
    assert(t@.skip(0) =~= t@);
    while i < t.len()
        invariant
            i <= t@.len(),
            inner_get(t@, key@) == inner_get(t@.skip(i as int), key@),
        decreases t@.len() - i,
    {
        assert(t@.skip(i as int)[0] == t@[i as int]);
        if crate::text::str_eq(t[i].0.as_str(), key) {
            return Some(i);
        }
        assert(t@.skip(i as int).drop_first() =~= t@.skip(i + 1));
        i += 1;
    }
    None
}

fn find_leaf(t: &Vec<(String, PermLeaf)>, key: &str) -> (r: Option<usize>)
    ensures
        r is None ==> leaf_get(t@, key@) is None,
        r matches Some(i) ==> i < t@.len() && leaf_get(t@, key@) == Some(t@[i as int].1),
{
    let mut i: usize = 0;
    assert(t@.skip(0) =~= t@);
    while i < t.len()
        invariant
            i <= t@.len(),
            leaf_get(t@, key@) == leaf_get(t@.skip(i as int), key@),
        decreases t@.len() - i,
    {
        assert(t@.skip(i as int)[0] == t@[i as int]);
        if crate::text::str_eq(t[i].0.as_str(), key) {
            return Some(i);
        }
        assert(t@.skip(i as int).drop_first() =~= t@.skip(i + 1));
        i += 1;
    }
    None
}

fn strings_in(items: &Vec<Option<String>>) -> (r: Vec<String>)
    ensures
        r@.map_values(|d: String| d@) == string_items(items@),
{
    let mut r: Vec<String> = Vec::new();
    let mut i: usize = 0;
    while i < items.len()
        invariant
            i <= items@.len(),
            r@.map_values(|d: String| d@) == string_items(items@.take(i as int)),
        decreases items@.len() - i,
    {
        assert(items@.take(i + 1).drop_last() =~= items@.take(i as int));
        match &items[i] {
            Some(s) => {
                r.push(s.clone());
            },
            None => {},
        }
        assert(r@.map_values(|d: String| d@) =~= string_items(items@.take(i + 1)));
        i += 1;
    }
    assert(items@.take(items@.len() as int) =~= items@);
    r
}

fn push_perm(out: &mut Vec<Permission>, p: Permission)
    ensures
        final(out)@.map_values(|q: Permission| perm_view(q)) == old(out)@.map_values(|q: Permission| perm_view(q)).push(perm_view(p)),
{
    out.push(p);
    assert(final(out)@.map_values(|q: Permission| perm_view(q)) =~= old(out)@.map_values(|q: Permission| perm_view(q)).push(perm_view(p)));
}

/// The permissions declared by `[[permissions]]` entries (see
/// `entries_perms`).
pub fn parse_permissions(sections: &[PermValue]) -> (out: Vec<Permission>)
    ensures
        out@.map_values(|q: Permission| perm_view(q)) == entries_perms(sections@),
{
    proof {
        reveal_strlit("ShellExecute");
        reveal_strlit("Full");
    }
    let mut out: Vec<Permission> = Vec::new();
    let mut i: usize = 0;
    while i < sections.len()
        invariant
            i <= sections@.len(),
            out@.map_values(|q: Permission| perm_view(q)) == entries_perms(sections@.take(i as int)),
        decreases sections@.len() - i,
    {
        assert(sections@.take(i + 1).drop_last() =~= sections@.take(i as int));
        let ghost before = out@.map_values(|q: Permission| perm_view(q));
        match &sections[i] {
            PermValue::Str(s) => {
                if crate::text::str_eq(s.as_str(), "ShellExecute") {
                    push_perm(&mut out, Permission::ShellExecute);
                }
            },
            PermValue::Table(t) => {
                match find_inner(t, "Network") {
                    Some(k) => {
                        let perm = match &t[k].1 {
                            PermInner::Table(nt) => match find_leaf(nt, "Domains") {
                                Some(d) => match &nt[d].1 {
                                    PermLeaf::Array(items) => Permission::Network(NetworkPermission::Domains(strings_in(items))),
                                    PermLeaf::Other => Permission::Network(NetworkPermission::Full),
                                },
                                None => Permission::Network(NetworkPermission::Full),
                            },
                            _ => Permission::Network(NetworkPermission::Full),
                        };
                        push_perm(&mut out, perm);
                    },
                    None => {},
                }
                let ghost after_net = out@.map_values(|q: Permission| perm_view(q));
                match find_inner(t, "FileSystem") {
                    Some(k) => match &t[k].1 {
                        PermInner::Str(fs) => {
                            if crate::text::str_eq(fs.as_str(), "Full") {
                                push_perm(&mut out, Permission::FileSystem(FileSystemPermission::Full));
                            }
                        },
                        PermInner::Table(ft) => {
                            match find_leaf(ft, "Read") {
                                Some(r) => match &ft[r].1 {
                                    PermLeaf::Array(items) => {
                                        push_perm(&mut out, Permission::FileSystem(FileSystemPermission::Read(strings_in(items))));
                                    },
                                    PermLeaf::Other => {},
                                },
                                None => {},
                            }
                            match find_leaf(ft, "Write") {
                                Some(w) => match &ft[w].1 {
                                    PermLeaf::Array(items) => {
                                        push_perm(&mut out, Permission::FileSystem(FileSystemPermission::Write(strings_in(items))));
                                    },
                                    PermLeaf::Other => {},
                                },
                                None => {},
                            }
                        },
                        PermInner::Other => {},
                    },
                    None => {},
                }
                let ghost after_fs = out@.map_values(|q: Permission| perm_view(q));
                match find_inner(t, "Memory") {
                    Some(k) => match &t[k].1 {
                        PermInner::Str(m) => {
                            push_perm(&mut out, Permission::Memory(MemoryPermission::Namespace(m.clone())));
                        },
                        _ => {
                            push_perm(&mut out, Permission::Memory(MemoryPermission::ReadWrite));
                        },
                    },
                    None => {},
                }
                proof {
                    assert(after_net =~= before + network_part(t@));
                    assert(after_fs =~= after_net + file_system_part(t@));
                    assert(out@.map_values(|q: Permission| perm_view(q)) =~= after_fs + memory_part(t@));
                }
            },
            PermValue::Other => {},
        }
        proof {
            assert(out@.map_values(|q: Permission| perm_view(q)) =~= before + entry_perms(sections@[i as int]));
        }
        i += 1;
    }
    assert(sections@.take(sections@.len() as int) =~= sections@);
    out
}


/// Capability type and version of a descriptor.
pub open spec fn cap_view(c: CapabilityDescriptor) -> (Seq<char>, Seq<char>) {
    (c.capability_type@, c.version@)
}

/// Name, description and requiredness of a secret descriptor.
pub open spec fn secret_view(d: SecretDescriptor) -> (Seq<char>, Seq<char>, bool) {
    (d.name@, d.description@, d.required)
}

/// Capability type and version of a `[[capabilities]]` entry, with the
/// version defaulting to `"1.0"`.
pub open spec fn capability_from(c: CapabilitySection) -> (Seq<char>, Seq<char>) {
    (c.capability@, match c.version {
        Some(v) => v@,
        None => "1.0"@,
    })
}

/// Name, description and requiredness of a `[[secrets]]` entry: no
/// description reads as empty, and a secret is required unless it says not.
pub open spec fn secret_from(s: SecretSection) -> (Seq<char>, Seq<char>, bool) {
    (s.name@, match s.description {
        Some(d) => d@,
        None => Seq::empty(),
    }, match s.required {
        Some(r) => r,
        None => true,
    })
}

/// The manifest that a parsed `skill.toml` describes: the `[skill]` fields
/// as written (category `"General"` when absent), the runtime section or
/// its defaults (`"Native"`, `"0.1.0"`, `["All"]`), the capabilities and
/// secrets with their defaults, and the declared permissions.
pub fn manifest_from_sections(
    skill: SkillManifestSection,
    runtime: Option<RuntimeSection>,
    capabilities: &Vec<CapabilitySection>,
    permissions: &[PermValue],
    secrets: &Vec<SecretSection>,
    config_defaults: HashMap<String, serde_json::Value>,
) -> (m: SkillManifest)
    ensures
        m.id.0@ == skill.id@,
        m.name@ == skill.name@,
        m.version@ == skill.version@,
        m.description@ == skill.description@,
        m.license == skill.license,
        m.category@ == (match skill.category {
            Some(c) => c@,
            None => "General"@,
        }),
        m.keywords@ == skill.keywords@,
        m.runtime@ == (match runtime {
            Some(r) => r.runtime@,
            None => "Native"@,
        }),
        m.min_abigail_version@ == (match runtime {
            Some(r) => match r.min_abigail_version {
                Some(v) => v@,
                None => "0.1.0"@,
            },
            None => "0.1.0"@,
        }),
        m.platforms@.map_values(|p: String| p@) == (match runtime {
            Some(r) => r.platforms@.map_values(|p: String| p@),
            None => seq!["All"@],
        }),
        m.capabilities@.map_values(|c: CapabilityDescriptor| cap_view(c))
            == capabilities@.map_values(|c: CapabilitySection| capability_from(c)),
        m.permissions@.map_values(|q: Permission| perm_view(q)) == entries_perms(permissions@),
        m.secrets@.map_values(|d: SecretDescriptor| secret_view(d))
            == secrets@.map_values(|s: SecretSection| secret_from(s)),
        m.config_defaults == config_defaults,
{
    let mut caps: Vec<CapabilityDescriptor> = Vec::new();
    let mut i: usize = 0;
    while i < capabilities.len()
        invariant
            i <= capabilities@.len(),
            caps@.map_values(|c: CapabilityDescriptor| cap_view(c))
                == capabilities@.take(i as int).map_values(|c: CapabilitySection| capability_from(c)),
        decreases capabilities@.len() - i,
    {
        let c = &capabilities[i];
        let version = match &c.version {
            Some(v) => v.clone(),
            None => String::from_str("1.0"),
        };
        proof {
            reveal_strlit("1.0");
        }
        let cap = CapabilityDescriptor { capability_type: c.capability.clone(), version };
        assert(cap_view(cap) == capability_from(capabilities@[i as int]));
        let ghost prev = caps@;
        assert(prev.map_values(|c: CapabilityDescriptor| cap_view(c)).len() == prev.len());
        assert(capabilities@.take(i as int).len() == i);
        caps.push(cap);
        assert(caps@ == prev.push(cap));
        let ghost a = caps@.map_values(|c: CapabilityDescriptor| cap_view(c));
        let ghost b = capabilities@.take(i + 1).map_values(|c: CapabilitySection| capability_from(c));
        let ghost pa = prev.map_values(|c: CapabilityDescriptor| cap_view(c));
        let ghost pb = capabilities@.take(i as int).map_values(|c: CapabilitySection| capability_from(c));
        assert forall|k: int| 0 <= k < i + 1 implies #[trigger] a[k] == b[k] by {
            if k < i {
                assert(pa[k] == pb[k]);
            }
        }
        assert(a =~= b);
        i += 1;
    }
    assert(capabilities@.take(capabilities@.len() as int) =~= capabilities@);
    let mut secs: Vec<SecretDescriptor> = Vec::new();
    let mut j: usize = 0;
    while j < secrets.len()
        invariant
            j <= secrets@.len(),
            secs@.map_values(|d: SecretDescriptor| secret_view(d))
                == secrets@.take(j as int).map_values(|s: SecretSection| secret_from(s)),
        decreases secrets@.len() - j,
    {
        let s = &secrets[j];
        let description = match &s.description {
            Some(d) => d.clone(),
            None => String::new(),
        };
        let required = match s.required {
            Some(r) => r,
            None => true,
        };
        let sd = SecretDescriptor { name: s.name.clone(), description, required };
        assert(secret_view(sd) == secret_from(secrets@[j as int]));
        let ghost prev = secs@;
        assert(prev.map_values(|d: SecretDescriptor| secret_view(d)).len() == prev.len());
        assert(secrets@.take(j as int).len() == j);
        secs.push(sd);
        assert(secs@ == prev.push(sd));
        let ghost a = secs@.map_values(|d: SecretDescriptor| secret_view(d));
        let ghost b = secrets@.take(j + 1).map_values(|s: SecretSection| secret_from(s));
        let ghost pa = prev.map_values(|d: SecretDescriptor| secret_view(d));
        let ghost pb = secrets@.take(j as int).map_values(|s: SecretSection| secret_from(s));
        assert forall|k: int| 0 <= k < j + 1 implies #[trigger] a[k] == b[k] by {
            if k < j {
                assert(pa[k] == pb[k]);
            }
        }
        assert(a =~= b);
        j += 1;
    }
    assert(secrets@.take(secrets@.len() as int) =~= secrets@);
    let perms = parse_permissions(permissions);
    proof {
        reveal_strlit("General");
        reveal_strlit("Native");
        reveal_strlit("0.1.0");
        reveal_strlit("All");
    }
    let category = match skill.category {
        Some(c) => c,
        None => String::from_str("General"),
    };
    let (runtime_name, min_version, platforms) = match runtime {
        Some(r) => {
            let v = match r.min_abigail_version {
                Some(v) => v,
                None => String::from_str("0.1.0"),
            };
            (r.runtime, v, r.platforms)
        },
        None => {
            let mut all: Vec<String> = Vec::new();
            all.push(String::from_str("All"));
            assert(all@.map_values(|p: String| p@) =~= seq!["All"@]);
            (String::from_str("Native"), String::from_str("0.1.0"), all)
        },
    };
    SkillManifest {
        id: SkillId(skill.id),
        name: skill.name,
        version: skill.version,
        description: skill.description,
        license: skill.license,
        category,
        keywords: skill.keywords,
        runtime: runtime_name,
        min_abigail_version: min_version,
        platforms,
        capabilities: caps,
        permissions: perms,
        secrets: secs,
        config_defaults,
    }
}

} // verus!
