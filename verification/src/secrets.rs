//! The secret-key namespace of the runtime: which keys may be stored, which
//! belong to removed capabilities, and which skill ids the runtime supports.
use vstd::prelude::*;
use crate::manifest::{secret_names, SkillManifest};
use crate::ordered::{insert_sorted, strictly_sorted};
use crate::text::{append_joined, append_str, joined, str_eq, string_of, strings_view, vec_has_str};

verus! {

/// A capability that was removed, with the secret keys and skills it used.
#[derive(Debug)]
pub struct RemovedCapability {
    pub id: String,
    pub reason: String,
    pub secret_keys: Vec<String>,
    pub skill_ids: Vec<String>,
}

/// Secret keys of the removed e-mail transport.
pub open spec fn removed_email_keys() -> Seq<Seq<char>> {
    seq![
        "imap_user"@, "imap_password"@, "imap_host"@, "imap_port"@, "imap_tls_mode"@,
        "smtp_user"@, "smtp_password"@, "smtp_host"@, "smtp_port"@, "smtp_tls_mode"@,
    ]
}

/// Skill ids of the removed e-mail transport.
pub open spec fn removed_email_skills() -> Seq<Seq<char>> {
    seq!["com.abigail.skills.email"@, "com.abigail.skills.proton-mail"@]
}

/// Id of the removed e-mail capability.
pub open spec fn email_capability_id() -> Seq<char> {
    "email_transport"@
}

/// Why the e-mail capability was removed.
pub open spec fn email_removal_reason() -> Seq<char> {
    "IMAP/SMTP email transport is no longer supported in mainline Abigail; use Browser skill fallback instead."@
}

/// Native skills the runtime registers.
pub open spec fn native_skill_ids() -> Seq<Seq<char>> {
    seq![
        "com.abigail.skills.browser"@,
        "com.abigail.skills.calendar"@,
        "com.abigail.skills.clipboard"@,
        "com.abigail.skills.code-analysis"@,
        "com.abigail.skills.database"@,
        "com.abigail.skills.document"@,
        "com.abigail.skills.filesystem"@,
        "com.abigail.skills.git"@,
        "com.abigail.skills.http"@,
        "com.abigail.skills.image"@,
        "com.abigail.skills.knowledge-base"@,
        "com.abigail.skills.notification"@,
        "com.abigail.skills.perplexity-search"@,
        "com.abigail.skills.shell"@,
        "com.abigail.skills.system-monitor"@,
        "com.abigail.skills.web-search"@,
    ]
}

fn strings_from(items: &[&str]) -> (v: Vec<String>)
    ensures
        strings_view(v@) == items@.map_values(|s: &str| s@),
{
    let mut v: Vec<String> = Vec::new();
    let mut i: usize = 0;
    while i < items.len()
        invariant
            i <= items@.len(),
            v@.len() == i,
            forall|j: int| 0 <= j < i ==> (#[trigger] v@[j])@ == items@[j]@,
        decreases items@.len() - i,
    {
        v.push(items[i].to_owned());
        i += 1;
    }
    assert(strings_view(v@) =~= items@.map_values(|s: &str| s@));
    v
}

/// Secret keys of the removed e-mail transport.
pub fn removed_email_secret_keys() -> (v: Vec<String>)
    ensures
        strings_view(v@) == removed_email_keys(),
{
    let items: [&str; 10] = [
        "imap_user", "imap_password", "imap_host", "imap_port", "imap_tls_mode",
        "smtp_user", "smtp_password", "smtp_host", "smtp_port", "smtp_tls_mode",
    ];
    let v = strings_from(&items);
    assert(items@.map_values(|s: &str| s@) =~= removed_email_keys());
    v
}

/// The removed e-mail capability.
pub fn removed_email_capability() -> (c: RemovedCapability)
    ensures
        c.id@ == email_capability_id(),
        c.reason@ == email_removal_reason(),
        strings_view(c.secret_keys@) == removed_email_keys(),
        strings_view(c.skill_ids@) == removed_email_skills(),
{
    let ids: [&str; 2] = ["com.abigail.skills.email", "com.abigail.skills.proton-mail"];
    let skill_ids = strings_from(&ids);
    assert(ids@.map_values(|s: &str| s@) =~= removed_email_skills());
    RemovedCapability {
        id: "email_transport".to_owned(),
        reason: "IMAP/SMTP email transport is no longer supported in mainline Abigail; use Browser skill fallback instead.".to_owned(),
        secret_keys: removed_email_secret_keys(),
        skill_ids,
    }
}

/// All removed capabilities.
pub fn removed_capabilities() -> (v: Vec<RemovedCapability>)
    ensures
        v@.len() == 1,
        v@[0].id@ == email_capability_id(),
        v@[0].reason@ == email_removal_reason(),
        strings_view(v@[0].secret_keys@) == removed_email_keys(),
        strings_view(v@[0].skill_ids@) == removed_email_skills(),
{
    let mut v: Vec<RemovedCapability> = Vec::new();
    v.push(removed_email_capability());
    v
}

/// The removed capability that used `key`, if any.
pub fn removed_capability_for_secret_key(key: &str) -> (r: Option<RemovedCapability>)
    ensures
        r is Some <==> removed_email_keys().contains(key@),
        r matches Some(c) ==> c.id@ == email_capability_id() && c.reason@ == email_removal_reason()
            && strings_view(c.secret_keys@) == removed_email_keys(),
{
    let mut caps = removed_capabilities();
    let mut i: usize = 0;
    while i < caps.len()
        invariant
            i <= caps@.len(),
            caps@.len() == 1,
            caps@[0].id@ == email_capability_id(),
            caps@[0].reason@ == email_removal_reason(),
            strings_view(caps@[0].secret_keys@) == removed_email_keys(),
            i == 1 ==> !removed_email_keys().contains(key@),
        decreases caps@.len() - i,
    {
        if vec_has_str(&caps[i].secret_keys, key) {
            let c = caps.remove(i);
            return Some(c);
        }
        i += 1;
    }
    None
}

/// Whether `key` belongs to a removed capability.
pub fn is_removed_secret_key(key: &str) -> (r: bool)
    ensures
        r == removed_email_keys().contains(key@),
{
    removed_capability_for_secret_key(key).is_some()
}

/// The error text for a refused key.
pub open spec fn removed_key_message(key: Seq<char>) -> Seq<char> {
    if removed_email_keys().contains(key) {
        "Secret key '"@ + key + "' belongs to removed capability '"@ + email_capability_id() + "'. "@ + email_removal_reason()
    } else {
        "Secret key '"@ + key + "' is not supported."@
    }
}

/// The error text for a refused key.
pub fn removed_secret_key_error(key: &str) -> (s: String)
    ensures
        s@ == removed_key_message(key@),
{
    let mut v: Vec<char> = Vec::new();
    append_str(&mut v, "Secret key '");
    append_str(&mut v, key);
    match removed_capability_for_secret_key(key) {
        Some(c) => {
            append_str(&mut v, "' belongs to removed capability '");
            append_str(&mut v, c.id.as_str());
            append_str(&mut v, "'. ");
            append_str(&mut v, c.reason.as_str());
        },
        None => {
            append_str(&mut v, "' is not supported.");
        },
    }
    string_of(v.as_slice())
}

/// A key may be stored through the hive unless it belongs to a removed
/// capability.
pub fn validate_hive_secret_key(key: &str) -> (r: Result<(), String>)
    ensures
        r is Ok <==> !removed_email_keys().contains(key@),
        r matches Err(e) ==> e@ == removed_key_message(key@),
{
    if is_removed_secret_key(key) {
        return Err(removed_secret_key_error(key));
    }
    Ok(())
}

/// Some manifest declares a secret named `key`.
pub open spec fn declared_in(manifests: Seq<SkillManifest>, key: Seq<char>) -> bool {
    exists|i: int| 0 <= i < manifests.len() && secret_names(#[trigger] manifests[i]).contains(key)
}

fn secret_declared_in_manifests(manifests: &[SkillManifest], key: &str) -> (r: bool)
    ensures
        r == declared_in(manifests@, key@),
{
    let mut i: usize = 0;
    while i < manifests.len()
        invariant
            i <= manifests@.len(),
            forall|j: int| 0 <= j < i ==> !secret_names(#[trigger] manifests@[j]).contains(key@),
        decreases manifests@.len() - i,
    {
        let secrets = &manifests[i].secrets;
        let mut k: usize = 0;
        while k < secrets.len()
            invariant
                i < manifests@.len(),
                k <= secrets@.len(),
                secrets@ == manifests@[i as int].secrets@,
                forall|j: int| 0 <= j < k ==> secrets@[j].name@ != key@,
            decreases secrets@.len() - k,
        {
            if str_eq(secrets[k].name.as_str(), key) {
                assert(secret_names(manifests@[i as int])[k as int] == key@);
                return true;
            }
            k += 1;
        }
        assert forall|j: int| 0 <= j < secret_names(manifests@[i as int]).len() implies secret_names(manifests@[i as int])[j] != key@ by {
            assert(secret_names(manifests@[i as int])[j] == secrets@[j].name@);
        }
        i += 1;
    }
    false
}

/// Text of the error for a key outside the namespace.
pub open spec fn namespace_message(key: Seq<char>, reserved: Seq<Seq<char>>) -> Seq<char> {
    "Secret key '"@ + key + "' is not in the allowed namespace. Keys must be a reserved provider name ("@
        + joined(reserved, ", "@) + ") or declared in a supported skill manifest."@
}

/// Whether `key` may be stored: a reserved provider key always may; a key of
/// a removed capability may not; otherwise it must be a preloaded skill's
/// key or be declared by a registered or a discovered manifest.
pub open spec fn namespace_allows(
    reserved: Seq<Seq<char>>,
    preloaded: Seq<Seq<char>>,
    manifests: Seq<SkillManifest>,
    discovered: Seq<SkillManifest>,
    key: Seq<char>,
) -> bool {
    reserved.contains(key) || (!removed_email_keys().contains(key) && (preloaded.contains(key)
        || declared_in(manifests, key) || declared_in(discovered, key)))
}

/// Check `key` against the secret namespace (see `namespace_allows`).
pub fn validate_secret_namespace_from_manifests(
    reserved_keys: &Vec<String>,
    preloaded_keys: &Vec<String>,
    manifests: &[SkillManifest],
    discovered: &[SkillManifest],
    key: &str,
) -> (r: Result<(), String>)
    ensures
        r is Ok <==> namespace_allows(strings_view(reserved_keys@), strings_view(preloaded_keys@), manifests@, discovered@, key@),
        r matches Err(e) ==> (removed_email_keys().contains(key@) ==> e@ == removed_key_message(key@)),
        r matches Err(e) ==> (!removed_email_keys().contains(key@) ==> e@ == namespace_message(key@, strings_view(reserved_keys@))),
{
    if vec_has_str(reserved_keys, key) {
        return Ok(());
    }
    if is_removed_secret_key(key) {
        return Err(removed_secret_key_error(key));
    }
    if vec_has_str(preloaded_keys, key) {
        return Ok(());
    }
    if secret_declared_in_manifests(manifests, key) {
        return Ok(());
    }
    if secret_declared_in_manifests(discovered, key) {
        return Ok(());
    }
    let mut v: Vec<char> = Vec::new();
    append_str(&mut v, "Secret key '");
    append_str(&mut v, key);
    append_str(&mut v, "' is not in the allowed namespace. Keys must be a reserved provider name (");
    append_joined(&mut v, reserved_keys.as_slice(), ", ");
    append_str(&mut v, ") or declared in a supported skill manifest.");
    Err(string_of(v.as_slice()))
}

/// Check `key` against the namespace, given the registry's listing (or the
/// error listing it gave).
pub fn validate_secret_namespace(
    listed: Result<Vec<SkillManifest>, String>,
    reserved_keys: &Vec<String>,
    preloaded_keys: &Vec<String>,
    discovered: &[SkillManifest],
    key: &str,
) -> (r: Result<(), String>)
    ensures
        listed matches Err(e) ==> r == Err::<(), String>(e),
        listed matches Ok(ms) ==> (r is Ok <==> namespace_allows(strings_view(reserved_keys@), strings_view(preloaded_keys@), ms@, discovered@, key@)),
        listed is Ok ==> (r matches Err(e) ==> (removed_email_keys().contains(key@) ==> e@ == removed_key_message(key@))),
        listed is Ok ==> (r matches Err(e) ==> (!removed_email_keys().contains(key@) ==> e@ == namespace_message(key@, strings_view(reserved_keys@)))),
{
    match listed {
        Ok(ms) => validate_secret_namespace_from_manifests(reserved_keys, preloaded_keys, ms.as_slice(), discovered, key),
        Err(e) => Err(e),
    }
}

fn insert_all(v: &mut Vec<String>, items: &Vec<String>)
    requires
        strictly_sorted(strings_view(old(v)@)),
    ensures
        strictly_sorted(strings_view(final(v)@)),
        strings_view(final(v)@).to_set() == strings_view(old(v)@).to_set() + strings_view(items@).to_set(),
{
    let ghost start = strings_view(v@).to_set();
    let mut i: usize = 0;
    while i < items.len()
        invariant
            i <= items@.len(),
            strictly_sorted(strings_view(v@)),
            strings_view(v@).to_set() == start + strings_view(items@.take(i as int)).to_set(),
        decreases items@.len() - i,
    {
        insert_sorted(v, items[i].clone());
        proof {
            assert(strings_view(items@.take(i + 1)) =~= strings_view(items@.take(i as int)).push(items@[i as int]@));
            strings_view(items@.take(i as int)).lemma_push_to_set_commute(items@[i as int]@);
            assert(strings_view(v@).to_set() =~= start + strings_view(items@.take(i + 1)).to_set());
        }
        i += 1;
    }
    assert(items@.take(items@.len() as int) =~= items@);
}

/// The native skill ids, as a sorted set.
pub fn supported_native_skill_ids() -> (v: Vec<String>)
    ensures
        strictly_sorted(strings_view(v@)),
        strings_view(v@).to_set() == native_skill_ids().to_set(),
{
    let items: [&str; 16] = [
        "com.abigail.skills.browser",
        "com.abigail.skills.calendar",
        "com.abigail.skills.clipboard",
        "com.abigail.skills.code-analysis",
        "com.abigail.skills.database",
        "com.abigail.skills.document",
        "com.abigail.skills.filesystem",
        "com.abigail.skills.git",
        "com.abigail.skills.http",
        "com.abigail.skills.image",
        "com.abigail.skills.knowledge-base",
        "com.abigail.skills.notification",
        "com.abigail.skills.perplexity-search",
        "com.abigail.skills.shell",
        "com.abigail.skills.system-monitor",
        "com.abigail.skills.web-search",
    ];
    let ids = strings_from(&items);
    assert(items@.map_values(|s: &str| s@) =~= native_skill_ids());
    let mut v: Vec<String> = Vec::new();
    assert(strings_view(v@).to_set() =~= Set::<Seq<char>>::empty());
    insert_all(&mut v, &ids);
    assert(strings_view(v@).to_set() =~= native_skill_ids().to_set());
    v
}

/// Every skill id the runtime registers: the native skills, the hive
/// management and skill factory skills, and the preloaded skills.
pub fn supported_runtime_skill_ids(preloaded_ids: &Vec<String>) -> (v: Vec<String>)
    ensures
        strictly_sorted(strings_view(v@)),
        strings_view(v@).to_set() == native_skill_ids().to_set()
            .insert("builtin.hive_management"@).insert("builtin.skill_factory"@)
            + strings_view(preloaded_ids@).to_set(),
{
    let mut v = supported_native_skill_ids();
    insert_sorted(&mut v, "builtin.hive_management".to_owned());
    insert_sorted(&mut v, "builtin.skill_factory".to_owned());
    insert_all(&mut v, preloaded_ids);
    v
}

/// Every secret key the namespace knows: those declared by registered and
/// discovered manifests, the preloaded skills' keys and the reserved
/// provider keys, as a sorted set; or the registry's listing error.
pub fn collect_declared_secret_keys(
    listed: Result<Vec<SkillManifest>, String>,
    discovered: &[SkillManifest],
    preloaded_keys: &Vec<String>,
    reserved_keys: &Vec<String>,
) -> (r: Result<Vec<String>, String>)
    ensures
        listed matches Err(e) ==> r == Err::<Vec<String>, String>(e),
        listed matches Ok(ms) ==> (r matches Ok(v) && strictly_sorted(strings_view(v@))
            && (forall|k: Seq<char>| strings_view(v@).contains(k) <==> (declared_in(ms@, k) || declared_in(discovered@, k)
                || strings_view(preloaded_keys@).contains(k) || strings_view(reserved_keys@).contains(k)))),
{
    let ms = match listed {
        Ok(ms) => ms,
        Err(e) => {
            return Err(e);
        },
    };
    let mut v: Vec<String> = Vec::new();
    let ghost v0 = strings_view(v@);
    assert(v0 =~= Seq::<Seq<char>>::empty());
    collect_manifest_keys(&mut v, ms.as_slice());
    let ghost v1 = strings_view(v@);
    collect_manifest_keys(&mut v, discovered);
    let ghost v2 = strings_view(v@);
    insert_all(&mut v, preloaded_keys);
    let ghost v3 = strings_view(v@);
    insert_all(&mut v, reserved_keys);
    proof {
        assert forall|k: Seq<char>| strings_view(v@).contains(k) <==> (declared_in(ms@, k) || declared_in(discovered@, k)
            || strings_view(preloaded_keys@).contains(k) || strings_view(reserved_keys@).contains(k)) by {
            assert(strings_view(v@).to_set().contains(k) == strings_view(v@).contains(k));
            assert(v3.to_set().contains(k) == v3.contains(k));
            assert(v2.to_set().contains(k) == v2.contains(k));
            assert(strings_view(preloaded_keys@).to_set().contains(k) == strings_view(preloaded_keys@).contains(k));
            assert(strings_view(reserved_keys@).to_set().contains(k) == strings_view(reserved_keys@).contains(k));
            assert(!v0.contains(k));
            assert(v1.contains(k) == declared_in(ms@, k));
            assert(v2.contains(k) == (v1.contains(k) || declared_in(discovered@, k)));
        }
    }
    Ok(v)
}

fn collect_manifest_keys(v: &mut Vec<String>, manifests: &[SkillManifest])
    requires
        strictly_sorted(strings_view(old(v)@)),
    ensures
        strictly_sorted(strings_view(final(v)@)),
        forall|k: Seq<char>| #![trigger strings_view(final(v)@).contains(k)] strings_view(final(v)@).contains(k) <==> (strings_view(old(v)@).contains(k) || declared_in(manifests@, k)),
{
    let mut i: usize = 0;
    while i < manifests.len()
        invariant
            i <= manifests@.len(),
            strictly_sorted(strings_view(v@)),
            forall|k: Seq<char>| strings_view(v@).contains(k) <==> (strings_view(old(v)@).contains(k)
                || declared_in(manifests@.take(i as int), k)),
        decreases manifests@.len() - i,
    {
        let ghost before = strings_view(v@).to_set();
        let names = secret_name_list(&manifests[i]);
        insert_all(v, &names);
        proof {
            assert forall|k: Seq<char>| strings_view(v@).contains(k) <==> (strings_view(old(v)@).contains(k)
                || declared_in(manifests@.take(i + 1), k)) by {
                assert(strings_view(v@).to_set().contains(k) == strings_view(v@).contains(k));
                assert(before.contains(k) == strings_view(v@).contains(k) || true);
                assert(strings_view(names@).to_set().contains(k) == strings_view(names@).contains(k));
                if declared_in(manifests@.take(i + 1), k) {
                    let j = choose|j: int| 0 <= j < manifests@.take(i + 1).len() && secret_names(#[trigger] manifests@.take(i + 1)[j]).contains(k);
                    if j < i {
                        assert(manifests@.take(i as int)[j] == manifests@.take(i + 1)[j]);
                    }
                }
                if declared_in(manifests@.take(i as int), k) {
                    let j = choose|j: int| 0 <= j < manifests@.take(i as int).len() && secret_names(#[trigger] manifests@.take(i as int)[j]).contains(k);
                    assert(manifests@.take(i as int)[j] == manifests@.take(i + 1)[j]);
                }
                if strings_view(names@).contains(k) {
                    assert(manifests@.take(i + 1)[i as int] == manifests@[i as int]);
                }
            }
        }
        i += 1;
    }
    assert(manifests@.take(manifests@.len() as int) =~= manifests@);
}

fn secret_name_list(m: &SkillManifest) -> (names: Vec<String>)
    ensures
        strings_view(names@) == secret_names(*m),
{
    let mut names: Vec<String> = Vec::new();
    let mut i: usize = 0;
    while i < m.secrets.len()
        invariant
            i <= m.secrets@.len(),
            names@.len() == i,
            forall|j: int| 0 <= j < i ==> (#[trigger] names@[j])@ == m.secrets@[j].name@,
        decreases m.secrets@.len() - i,
    {
        names.push(m.secrets[i].name.clone());
        i += 1;
    }
    assert(strings_view(names@) =~= secret_names(*m));
    names
}


/// Reserved provider keys are always in the namespace; keys of a removed
/// capability never are, unless reserved; and any other key a supported
/// manifest declares is.
pub proof fn lemma_namespace_rules(
    reserved: Seq<Seq<char>>,
    preloaded: Seq<Seq<char>>,
    manifests: Seq<SkillManifest>,
    discovered: Seq<SkillManifest>,
    key: Seq<char>,
)
    ensures
        reserved.contains(key) ==> namespace_allows(reserved, preloaded, manifests, discovered, key),
        !reserved.contains(key) && removed_email_keys().contains(key) ==> !namespace_allows(reserved, preloaded, manifests, discovered, key),
        !removed_email_keys().contains(key) && declared_in(manifests, key) ==> namespace_allows(reserved, preloaded, manifests, discovered, key),
{
}

} // verus!
