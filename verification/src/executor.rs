//! Pre-execution checks of a tool call: tool lookup, mentor confirmation and
//! the sandbox permission checks derived from the tool's declared needs.
//! Running the tool itself (timeouts, concurrency) is the caller's part.
use vstd::prelude::*;
use crate::manifest::{FileSystemPermission, NetworkPermission, Permission};
use crate::sandbox::{network_allows, read_allows, write_allows, AuditAction, AuditActionKind, CanonicalPaths, SkillSandbox};
use crate::skill::{SkillError, ToolDescriptor};
use crate::text::{append_str, str_eq, string_of};
use crate::tool_args::{unknown_tool, unknown_tool_text};

verus! {

/// Tag and target of an audit action: 0 network, 1 read, 2 write, 3 memory,
/// 4 other.
pub open spec fn action_view(a: AuditAction) -> (int, Seq<char>) {
    match a.kind {
        AuditActionKind::NetworkRequest { domain } => (0, domain@),
        AuditActionKind::FileRead { path } => (1, path@),
        AuditActionKind::FileWrite { path } => (2, path@),
        AuditActionKind::MemoryAccess { .. } => (3, Seq::<char>::empty()),
        AuditActionKind::Other(s) => (4, s@),
    }
}

/// First element of a list of strings, or `"unknown"`.
pub open spec fn first_or_unknown(v: Seq<String>) -> Seq<char> {
    if v.len() > 0 {
        v[0]@
    } else {
        "unknown"@
    }
}

/// The audit action implied by one required permission, if any.
pub open spec fn action_for(p: Permission) -> Option<(int, Seq<char>)> {
    match p {
        Permission::Network(NetworkPermission::Full) => Some((0, "any"@)),
        Permission::Network(NetworkPermission::LocalOnly) => Some((0, "localhost"@)),
        Permission::Network(NetworkPermission::Domains(ds)) => Some((0, first_or_unknown(ds@))),
        Permission::FileSystem(FileSystemPermission::Read(ps)) => Some((1, first_or_unknown(ps@))),
        Permission::FileSystem(FileSystemPermission::Write(ps)) => Some((2, first_or_unknown(ps@))),
        Permission::FileSystem(FileSystemPermission::Full) => Some((1, "/"@)),
        _ => None,
    }
}

/// The audit actions implied by a list of required permissions, in order.
pub open spec fn actions_for(perms: Seq<Permission>) -> Seq<(int, Seq<char>)>
    decreases perms.len(),
{
    if perms.len() == 0 {
        Seq::empty()
    } else {
        match action_for(perms.last()) {
            Some(a) => actions_for(perms.drop_last()).push(a),
            None => actions_for(perms.drop_last()),
        }
    }
}

fn first_or_unknown_of(v: &Vec<String>) -> (s: String)
    ensures
        s@ == first_or_unknown(v@),
{
    if v.len() > 0 {
        v[0].clone()
    } else {
        "unknown".to_owned()
    }
}

/// The audit actions to check before running a tool with the given
/// required permissions.
pub fn audit_actions_for_tool(tool_name: &str, required_permissions: &[Permission]) -> (actions: Vec<AuditAction>)
    ensures
        actions@.map_values(|a: AuditAction| action_view(a)) == actions_for(required_permissions@),
{
    let mut actions: Vec<AuditAction> = Vec::new();
    let mut i: usize = 0;
    while i < required_permissions.len()
        invariant
            i <= required_permissions@.len(),
            actions@.map_values(|a: AuditAction| action_view(a)) == actions_for(required_permissions@.take(i as int)),
        decreases required_permissions@.len() - i,
    {
        assert(required_permissions@.take(i + 1).drop_last() =~= required_permissions@.take(i as int));
        let ghost before = actions@;
        let kind: Option<AuditActionKind> = match &required_permissions[i] {
            Permission::Network(np) => {
                let domain = match np {
                    NetworkPermission::Full => "any".to_owned(),
                    NetworkPermission::LocalOnly => "localhost".to_owned(),
                    NetworkPermission::Domains(domains) => first_or_unknown_of(domains),
                };
                Some(AuditActionKind::NetworkRequest { domain })
            },
            Permission::FileSystem(fsp) => match fsp {
                FileSystemPermission::Read(paths) => Some(AuditActionKind::FileRead { path: first_or_unknown_of(paths) }),
                FileSystemPermission::Write(paths) => Some(AuditActionKind::FileWrite { path: first_or_unknown_of(paths) }),
                FileSystemPermission::Full => Some(AuditActionKind::FileRead { path: "/".to_owned() }),
            },
            _ => None,
        };
        match kind {
            Some(k) => {
                actions.push(AuditAction { kind: k });
                assert(actions@.map_values(|a: AuditAction| action_view(a)) =~= before.map_values(|a: AuditAction| action_view(a)).push(action_view(actions@.last())));
            },
            None => {},
        }
        i += 1;
    }
    assert(required_permissions@.take(required_permissions@.len() as int) =~= required_permissions@);
    actions
}

/// Index of the first tool named `name`.
pub fn find_tool(tools: &[ToolDescriptor], name: &str) -> (r: Option<usize>)
    ensures
        r matches Some(i) ==> i < tools@.len() && tools@[i as int].name@ == name@ && forall|j: int| 0 <= j < i ==> tools@[j].name@ != name@,
        r is None ==> forall|j: int| 0 <= j < tools@.len() ==> tools@[j].name@ != name@,
{
    let mut i: usize = 0;
    while i < tools.len()
        invariant
            i <= tools@.len(),
            forall|j: int| 0 <= j < i ==> tools@[j].name@ != name@,
        decreases tools@.len() - i,
    {
        if str_eq(tools[i].name.as_str(), name) {
            return Some(i);
        }
        i += 1;
    }
    None
}

/// Message of the confirmation error for `tool_name`.
pub open spec fn confirmation_message(tool_name: Seq<char>) -> Seq<char> {
    "Tool '"@ + tool_name + "' requires explicit mentor confirmation. Re-run with mentor_confirmed: true."@
}

/// Message of the permission error for `tool_name`.
pub open spec fn permission_message(tool_name: Seq<char>) -> Seq<char> {
    "Tool "@ + tool_name + " requires permission that is not granted for this skill"@
}

/// Whether an action, given by its tag and target, is allowed by the
/// granted permissions (tags as in `action_view`).
pub open spec fn view_allowed(perms: Seq<Permission>, v: (int, Seq<char>), entries: Seq<(String, Option<Vec<String>>)>) -> bool {
    if v.0 == 0 {
        exists|k: int| 0 <= k < perms.len() && network_allows(#[trigger] perms[k], v.1)
    } else if v.0 == 1 {
        exists|k: int| 0 <= k < perms.len() && read_allows(#[trigger] perms[k], v.1, entries)
    } else if v.0 == 2 {
        exists|k: int| 0 <= k < perms.len() && write_allows(#[trigger] perms[k], v.1, entries)
    } else {
        true
    }
}

/// Every action implied by a list of permissions is allowed.
pub open spec fn all_actions_allowed(perms: Seq<Permission>, required: Seq<Permission>, entries: Seq<(String, Option<Vec<String>>)>) -> bool {
    forall|k: int| 0 <= k < actions_for(required).len() ==> view_allowed(perms, #[trigger] actions_for(required)[k], entries)
}

/// The actions implied by permissions are network requests, reads or writes.
pub proof fn lemma_actions_for_tags(perms: Seq<Permission>)
    ensures
        forall|k: int| 0 <= k < actions_for(perms).len() ==> 0 <= (#[trigger] actions_for(perms)[k]).0 <= 2,
    decreases perms.len(),
{
    if perms.len() > 0 {
        let prev = actions_for(perms.drop_last());
        lemma_actions_for_tags(perms.drop_last());
        assert forall|k: int| 0 <= k < actions_for(perms).len() implies 0 <= (#[trigger] actions_for(perms)[k]).0 <= 2 by {
            if k < prev.len() {
                assert(actions_for(perms)[k] == prev[k]);
            }
        }
    }
}

/// What authorizing a call of `tool` does to the sandbox (`before` to
/// `after`) and gives (`r`). A call that needs confirmation and lacks it is
/// refused with the confirmation message and nothing is audited.
/// Otherwise the actions the tool's permissions imply are checked in order
/// and each check is audited (the action and whether it was allowed), up to
/// the first denied one: the call is allowed when none is denied, and
/// refused with the permission message at the first denial, which is the
/// last entry audited.
pub open spec fn authorization(
    tool: ToolDescriptor,
    confirmed: bool,
    before: SkillSandbox,
    after: SkillSandbox,
    paths: CanonicalPaths,
    r: Result<(), SkillError>,
) -> bool {
    let acts = actions_for(tool.required_permissions@);
    let b = before.audit_log@.len();
    let n = after.audit_log@.len() - b;
    &&& after.granted_permissions == before.granted_permissions
    &&& after.skill_id == before.skill_id
    &&& after.audit_log@.take(b as int) == before.audit_log@
    &&& if tool.requires_confirmation && !confirmed {
        &&& r matches Err(SkillError::ConfirmationRequired(m)) && m@ == confirmation_message(tool.name@)
        &&& after.audit_log@ == before.audit_log@
    } else {
        &&& 0 <= n <= acts.len()
        &&& forall|k: int| 0 <= k < n ==> (#[trigger] after.audit_log@[b + k]).allowed
            == view_allowed(before.granted_permissions@, acts[k], paths.entries@)
        &&& forall|k: int| 0 <= k < n ==> action_view((#[trigger] after.audit_log@[b + k]).action) == acts[k]
        &&& forall|k: int| 0 <= k < n - 1 ==> view_allowed(before.granted_permissions@, #[trigger] acts[k], paths.entries@)
        &&& (r is Ok <==> all_actions_allowed(before.granted_permissions@, tool.required_permissions@, paths.entries@))
        &&& (r is Ok ==> n == acts.len())
        &&& (r is Err ==> n >= 1 && !view_allowed(before.granted_permissions@, acts[n - 1], paths.entries@)
            && (r matches Err(SkillError::PermissionDenied(m)) && m@ == permission_message(tool.name@)))
    }
}

/// Authorize a call of `tool` (see `authorization`).
pub fn authorize_tool_call(
    tool: &ToolDescriptor,
    confirmed: bool,
    sandbox: &mut SkillSandbox,
    paths: &CanonicalPaths,
) -> (r: Result<(), SkillError>)
    ensures
        authorization(*tool, confirmed, *old(sandbox), *final(sandbox), *paths, r),
{
    if tool.requires_confirmation && !confirmed {
        let mut v: Vec<char> = Vec::new();
        append_str(&mut v, "Tool '");
        append_str(&mut v, tool.name.as_str());
        append_str(&mut v, "' requires explicit mentor confirmation. Re-run with mentor_confirmed: true.");
        assert(sandbox.audit_log@.take(sandbox.audit_log@.len() as int) =~= sandbox.audit_log@);
        return Err(SkillError::ConfirmationRequired(string_of(v.as_slice())));
    }
    let actions = audit_actions_for_tool(tool.name.as_str(), tool.required_permissions.as_slice());
    let ghost views = actions_for(tool.required_permissions@);
    proof {
        lemma_actions_for_tags(tool.required_permissions@);
        assert forall|k: int| 0 <= k < actions@.len() implies #[trigger] action_view(actions@[k]) == views[k] by {
            assert(actions@.map_values(|a: AuditAction| action_view(a))[k] == action_view(actions@[k]));
        }
    }
    let mut i: usize = 0;
    while i < actions.len()
        invariant
            i <= actions@.len(),
            !(tool.requires_confirmation && !confirmed),
            actions@.len() == views.len(),
            views == actions_for(tool.required_permissions@),
            forall|k: int| 0 <= k < actions@.len() ==> #[trigger] action_view(actions@[k]) == views[k],
            forall|k: int| 0 <= k < views.len() ==> 0 <= (#[trigger] views[k]).0 <= 2,
            sandbox.granted_permissions == old(sandbox).granted_permissions,
            sandbox.skill_id == old(sandbox).skill_id,
            sandbox.audit_log@.len() == old(sandbox).audit_log@.len() + i,
            sandbox.audit_log@.take(old(sandbox).audit_log@.len() as int) == old(sandbox).audit_log@,
            forall|k: int| 0 <= k < i ==> view_allowed(old(sandbox).granted_permissions@, #[trigger] views[k], paths.entries@),
            forall|k: int| 0 <= k < i ==> (#[trigger] sandbox.audit_log@[old(sandbox).audit_log@.len() + k]).allowed
                == view_allowed(old(sandbox).granted_permissions@, views[k], paths.entries@),
            forall|k: int| 0 <= k < i ==> action_view((#[trigger] sandbox.audit_log@[old(sandbox).audit_log@.len() + k]).action)
                == views[k],
        decreases actions@.len() - i,
    {
        let ghost log_before = sandbox.audit_log@;
        let ok = sandbox.check_permission(&actions[i], paths);
        proof {
            assert(action_view(actions@[i as int]) == views[i as int]);
            assert(ok == view_allowed(old(sandbox).granted_permissions@, views[i as int], paths.entries@));
            assert(sandbox.audit_log@.drop_last() == log_before);
            assert forall|k: int| 0 <= k < i + 1 implies (#[trigger] sandbox.audit_log@[old(sandbox).audit_log@.len() + k]).allowed
                == view_allowed(old(sandbox).granted_permissions@, views[k], paths.entries@)
                && action_view(sandbox.audit_log@[old(sandbox).audit_log@.len() + k].action) == views[k] by {
                if k < i {
                    assert(sandbox.audit_log@[old(sandbox).audit_log@.len() + k] == log_before[old(sandbox).audit_log@.len() + k]);
                }
            }
            assert(sandbox.audit_log@.take(old(sandbox).audit_log@.len() as int) =~= old(sandbox).audit_log@) by {
                assert(log_before.take(old(sandbox).audit_log@.len() as int) == old(sandbox).audit_log@);
            }
        }
        if !ok {
            let mut v: Vec<char> = Vec::new();
            append_str(&mut v, "Tool ");
            append_str(&mut v, tool.name.as_str());
            append_str(&mut v, " requires permission that is not granted for this skill");
            return Err(SkillError::PermissionDenied(string_of(v.as_slice())));
        }
        i += 1;
    }
    Ok(())
}

/// Authorize a call of the skill's tool named `tool_name`: the first tool
/// of that name is authorized (see `authorization`) and its index returned;
/// with no tool of that name the call fails with `Unknown tool: <name>` and
/// the sandbox is untouched.
pub fn authorize_named_tool(
    tools: &[ToolDescriptor],
    tool_name: &str,
    confirmed: bool,
    sandbox: &mut SkillSandbox,
    paths: &CanonicalPaths,
) -> (r: Result<usize, SkillError>)
    ensures
        (forall|j: int| 0 <= j < tools@.len() ==> tools@[j].name@ != tool_name@) ==> (
            *final(sandbox) == *old(sandbox)
            && (r matches Err(SkillError::ToolFailed(m)) && m@ == unknown_tool_text(tool_name@))),
        forall|i: int| 0 <= i < tools@.len() && (#[trigger] tools@[i]).name@ == tool_name@
            && (forall|j: int| 0 <= j < i ==> tools@[j].name@ != tool_name@) ==> {
            &&& (r matches Ok(k) ==> k == i && authorization(tools@[i], confirmed, *old(sandbox), *final(sandbox), *paths, Ok(())))
            &&& (r matches Err(e) ==> authorization(tools@[i], confirmed, *old(sandbox), *final(sandbox), *paths, Err(e)))
        },
{
    let i = match find_tool(tools, tool_name) {
        Some(i) => i,
        None => {
            return Err(unknown_tool(tool_name));
        },
    };
    match authorize_tool_call(&tools[i], confirmed, sandbox, paths) {
        Ok(()) => Ok(i),
        Err(e) => Err(e),
    }
}

} // verus!
