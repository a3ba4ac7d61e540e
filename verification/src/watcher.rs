//! Skill-file change events: which file changes concern skills and the
//! events they give. Watching the file system is the host's part.
use vstd::prelude::*;
use crate::text::{chars_of, ends_with_str, has_suffix, str_eq};

verus! {

/// A change to a skill file.
#[derive(Debug)]
pub enum SkillFileEvent {
    /// A `skill.toml` or `*.json` file was created or modified.
    Changed(String),
    /// A `skill.toml` or `*.json` file was removed.
    Removed(String),
}

/// A file name that describes a skill: `skill.toml` or any `*.json`.
pub open spec fn skill_file_name(name: Seq<char>) -> bool {
    name == "skill.toml"@ || has_suffix(name, ".json"@)
}

/// Whether a file name describes a skill.
pub fn is_skill_file(name: &str) -> (r: bool)
    ensures
        r == skill_file_name(name@),
{
    let cs = chars_of(name);
    str_eq(name, "skill.toml") || ends_with_str(cs.as_slice(), ".json")
}

/// Kind of a file-system change.
#[derive(Debug, Clone, Copy, PartialEq, Eq, Structural)]
pub enum ChangeKind {
    Create,
    Modify,
    Remove,
    Other,
}

/// The events for one file-system change, in path order: each path whose
/// file name is a skill file gives `Changed` for a creation or
/// modification and `Removed` for a removal; other kinds give none.
pub open spec fn change_events(kind: ChangeKind, paths: Seq<(String, Option<String>)>) -> Seq<(bool, Seq<char>)>
    decreases paths.len(),
{
    if paths.len() == 0 {
        Seq::empty()
    } else {
        let rest = change_events(kind, paths.drop_last());
        let (path, name) = paths.last();
        if name is Some && skill_file_name(name->0@) && kind != ChangeKind::Other {
            rest.push((kind == ChangeKind::Remove, path@))
        } else {
            rest
        }
    }
}

/// Kind and path of an event (`true` for a removal).
pub open spec fn event_view(e: SkillFileEvent) -> (bool, Seq<char>) {
    match e {
        SkillFileEvent::Changed(p) => (false, p@),
        SkillFileEvent::Removed(p) => (true, p@),
    }
}

/// The events for one change; each path comes with its file name, if it
/// has one that is text.
pub fn events_for_change(kind: ChangeKind, paths: &[(String, Option<String>)]) -> (r: Vec<SkillFileEvent>)
    ensures
        r@.map_values(|e: SkillFileEvent| event_view(e)) == change_events(kind, paths@),
{
    let mut out: Vec<SkillFileEvent> = Vec::new();
    let mut i: usize = 0;
    while i < paths.len()
        invariant
            i <= paths@.len(),
            out@.map_values(|e: SkillFileEvent| event_view(e)) == change_events(kind, paths@.take(i as int)),
        decreases paths@.len() - i,
    {
        assert(paths@.take(i + 1).drop_last() =~= paths@.take(i as int));
        let relevant = match &paths[i].1 {
            Some(n) => is_skill_file(n.as_str()),
            None => false,
        };
        if relevant {
            let p = paths[i].0.clone();
            match kind {
                ChangeKind::Create => out.push(SkillFileEvent::Changed(p)),
                ChangeKind::Modify => out.push(SkillFileEvent::Changed(p)),
                ChangeKind::Remove => out.push(SkillFileEvent::Removed(p)),
                ChangeKind::Other => {},
            }
        }
        assert(out@.map_values(|e: SkillFileEvent| event_view(e)) =~= change_events(kind, paths@.take(i + 1)));
        i += 1;
    }
    assert(paths@.take(paths@.len() as int) =~= paths@);
    out
}

} // verus!
