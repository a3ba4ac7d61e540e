//! Runtime skill execution policy: an optional approval list and a signed
//! allowlist whose entries carry Ed25519 signatures by trusted signers.
//! The policy fails closed: an active entry with a bad signature or an
//! untrusted signer denies, and when trusted signers are configured an
//! external skill needs a valid signed entry.
use vstd::prelude::*;
use crate::text::{
    append_str, chars_of, decimal, has_prefix, starts_with_str, str_eq, string_of, strings_view,
    trim, trim_chars, u64_to_decimal, vec_has_str,
};

verus! {

/// An allowlist entry signed by a trusted signer.
#[derive(Debug)]
pub struct SignedSkillAllowlistEntry {
    pub skill_id: String,
    /// Base64 of the signer's Ed25519 public key.
    pub signer: String,
    /// Base64 of the Ed25519 signature of the entry's payload.
    pub signature: String,
    pub source: String,
    pub added_at: String,
    pub active: bool,
}

impl Clone for SignedSkillAllowlistEntry {
    fn clone(&self) -> (c: Self)
        ensures
            c == *self,
    {
        SignedSkillAllowlistEntry {
            skill_id: self.skill_id.clone(),
            signer: self.signer.clone(),
            signature: self.signature.clone(),
            source: self.source.clone(),
            added_at: self.added_at.clone(),
            active: self.active,
        }
    }
}

/// The part of the application config the policy reads.
#[derive(Debug)]
pub struct PolicyConfig {
    pub trusted_skill_signers: Vec<String>,
    pub approved_skill_ids: Vec<String>,
    pub signed_skill_allowlist: Vec<SignedSkillAllowlistEntry>,
}

/// What standard-alphabet base64 decoding gives for a text: the bytes, or
/// the decode error's text.
pub uninterp spec fn base64_decoded(text: Seq<char>) -> Result<Seq<u8>, Seq<char>>;

/// Decoded bytes.
pub open spec fn decoded_bytes(b: Seq<u8>) -> Result<Seq<u8>, Seq<char>> {
    Ok(b)
}

/// A decode failure.
pub open spec fn decode_failure(e: Seq<char>) -> Result<Seq<u8>, Seq<char>> {
    Err(e)
}

/// Calls `base64::engine::general_purpose::STANDARD.decode` on the text's
/// bytes and renders a decode error with `to_string`. The contract names the
/// result `base64_decoded(text@)`.
#[verifier::external_body]
fn base64_decode(text: &str) -> (r: Result<Vec<u8>, String>)
    ensures
        r matches Ok(b) ==> base64_decoded(text@) == decoded_bytes(b@),
        r matches Err(e) ==> base64_decoded(text@) == decode_failure(e@),
{
    match base64::Engine::decode(&base64::engine::general_purpose::STANDARD, text) {
        Ok(b) => Ok(b),
        Err(e) => Err(e.to_string()),
    }
}

/// Why 32 bytes are not an Ed25519 public key (the point does not
/// decompress), or none when they are one.
pub uninterp spec fn ed25519_key_error(bytes: Seq<u8>) -> Option<Seq<char>>;

/// Calls `ed25519_dalek::VerifyingKey::from_bytes` and renders an error with
/// `to_string`. The contract names the outcome `ed25519_key_error(bytes@)`.
#[verifier::external_body]
fn check_verifying_key(bytes: &Vec<u8>) -> (r: Result<(), String>)
    requires
        bytes@.len() == 32,
    ensures
        r is Ok <==> ed25519_key_error(bytes@) is None,
        r matches Err(e) ==> ed25519_key_error(bytes@) == Some(e@),
{
    let mut key = [0u8; 32];
    key.copy_from_slice(bytes);
    match ed25519_dalek::VerifyingKey::from_bytes(&key) {
        Ok(_) => Ok(()),
        Err(e) => Err(e.to_string()),
    }
}

/// The error text of `ed25519::Signature::from_slice` for bytes that are
/// not 64 long: its error is `signature::Error::new()`, which has no
/// source and displays as `signature error`.
pub open spec fn signature_length_error() -> Seq<char> {
    "signature error"@
}

/// Calls `ed25519::Signature::from_slice`, which accepts exactly 64 bytes,
/// and renders an error with `to_string`.
#[verifier::external_body]
fn check_signature_bytes(bytes: &Vec<u8>) -> (r: Result<(), String>)
    ensures
        r is Ok <==> bytes@.len() == 64,
        r matches Err(e) ==> e@ == signature_length_error(),
{
    match ed25519_dalek::Signature::from_slice(bytes) {
        Ok(_) => Ok(()),
        Err(e) => Err(e.to_string()),
    }
}

/// Whether `signature` is a valid Ed25519 signature of the UTF-8 bytes of
/// `message` under the public key `key`.
pub uninterp spec fn ed25519_signature_valid(key: Seq<u8>, message: Seq<char>, signature: Seq<u8>) -> bool;

/// Builds the key with `VerifyingKey::from_bytes` and the signature with
/// `Signature::from_bytes`, then calls `verify` on the message's bytes. The
/// contract names the outcome `ed25519_signature_valid`.
#[verifier::external_body]
fn verify_signature(key: &Vec<u8>, message: &str, signature: &Vec<u8>) -> (r: bool)
    requires
        key@.len() == 32,
        ed25519_key_error(key@) is None,
        signature@.len() == 64,
    ensures
        r == ed25519_signature_valid(key@, message@, signature@),
{
    let (mut k, mut s) = ([0u8; 32], [0u8; 64]);
    k.copy_from_slice(key);
    s.copy_from_slice(signature);
    match ed25519_dalek::VerifyingKey::from_bytes(&k) {
        Ok(vk) => ed25519_dalek::Verifier::verify(&vk, message.as_bytes(), &ed25519_dalek::Signature::from_bytes(&s)).is_ok(),
        Err(_) => false,
    }
}

/// The canonical text an allowlist entry's signature covers.
pub open spec fn payload_text(skill_id: Seq<char>, signer: Seq<char>, source: Seq<char>, active: bool) -> Seq<char> {
    "abigail-signed-skill-allowlist-v1\nskill_id="@ + skill_id + "\nsigner="@ + signer + "\nsource="@ + source
        + "\nactive="@ + (if active { "true"@ } else { "false"@ })
}

/// The canonical payload of a signed allowlist entry: the exact text that is
/// Ed25519-signed to create the entry.
pub fn build_allowlist_payload(skill_id: &str, signer: &str, source: &str, active: bool) -> (s: String)
    ensures
        s@ == payload_text(skill_id@, signer@, source@, active),
{
    let mut v: Vec<char> = Vec::new();
    append_str(&mut v, "abigail-signed-skill-allowlist-v1\nskill_id=");
    append_str(&mut v, skill_id);
    append_str(&mut v, "\nsigner=");
    append_str(&mut v, signer);
    append_str(&mut v, "\nsource=");
    append_str(&mut v, source);
    append_str(&mut v, "\nactive=");
    append_str(&mut v, if active { "true" } else { "false" });
    string_of(v.as_slice())
}

/// A skill id outside the built-in namespaces (`builtin.`,
/// `com.abigail.skills.`, `skill.`).
pub open spec fn external_id(id: Seq<char>) -> bool {
    !(has_prefix(id, "builtin."@) || has_prefix(id, "com.abigail.skills."@) || has_prefix(id, "skill."@))
}

/// Whether a skill id is outside the built-in namespaces.
pub fn is_external_skill(skill_id: &str) -> (r: bool)
    ensures
        r == external_id(skill_id@),
{
    let cs = chars_of(skill_id);
    !(starts_with_str(cs.as_slice(), "builtin.") || starts_with_str(cs.as_slice(), "com.abigail.skills.")
        || starts_with_str(cs.as_slice(), "skill."))
}

/// The bytes of a signer key, or the error text decoding gives.
pub open spec fn signer_key(raw: Seq<char>) -> Result<Seq<u8>, Seq<char>> {
    match base64_decoded(raw) {
        Err(e) => Err("base64 decode failed: "@ + e),
        Ok(b) => if b.len() != 32 {
            Err("expected 32-byte Ed25519 public key, got "@ + decimal(b.len()) + " bytes"@)
        } else {
            match ed25519_key_error(b) {
                Some(e) => Err(e),
                None => Ok(b),
            }
        },
    }
}

fn decode_signer_key(raw: &str) -> (r: Result<Vec<u8>, String>)
    ensures
        r matches Ok(b) ==> signer_key(raw@) == decoded_bytes(b@),
        r matches Err(e) ==> signer_key(raw@) == decode_failure(e@),
{
    let decoded = match base64_decode(raw) {
        Ok(b) => b,
        Err(e) => {
            let mut v: Vec<char> = Vec::new();
            append_str(&mut v, "base64 decode failed: ");
            append_str(&mut v, e.as_str());
            return Err(string_of(v.as_slice()));
        },
    };
    if decoded.len() != 32 {
        let mut v: Vec<char> = Vec::new();
        append_str(&mut v, "expected 32-byte Ed25519 public key, got ");
        let digits = u64_to_decimal(decoded.len() as u64);
        crate::text::append_chars(&mut v, digits.as_slice());
        append_str(&mut v, " bytes");
        return Err(string_of(v.as_slice()));
    }
    match check_verifying_key(&decoded) {
        Ok(()) => Ok(decoded),
        Err(e) => Err(e),
    }
}

/// A trusted signer: the trimmed key text and its key bytes.
#[derive(Debug)]
pub struct TrustedSigner {
    pub key_text: String,
    pub key: Vec<u8>,
}

/// The signers' outcome: the trusted signers (trimmed, non-empty keys that
/// decode) up to the first key that does not, and that key's error.
pub open spec fn signers_outcome(signers: Seq<String>) -> (Seq<(Seq<char>, Seq<u8>)>, Option<Seq<char>>)
    decreases signers.len(),
{
    if signers.len() == 0 {
        (Seq::empty(), None)
    } else {
        let (prev, err) = signers_outcome(signers.drop_last());
        if err is Some {
            (prev, err)
        } else {
            let t = trim(signers.last()@);
            if t.len() == 0 {
                (prev, None)
            } else {
                match signer_key(t) {
                    Ok(b) => (prev.push((t, b)), None),
                    Err(e) => (prev, Some("Invalid trusted signer key '"@ + t + "': "@ + e)),
                }
            }
        }
    }
}

/// The runtime skill execution policy.
pub struct SkillExecutionPolicy {
    approved_skill_ids: Vec<String>,
    signed_entries: Vec<SignedSkillAllowlistEntry>,
    trusted_signers: Vec<TrustedSigner>,
    strict_signed_external: bool,
    configuration_error: Option<String>,
    config: Ghost<PolicyConfig>,
}

/// The active entry for `id`: the last active allowlist entry with that
/// skill id.
pub open spec fn active_entry(list: Seq<SignedSkillAllowlistEntry>, id: Seq<char>) -> Option<SignedSkillAllowlistEntry>
    decreases list.len(),
{
    if list.len() == 0 {
        None
    } else if list.last().active && list.last().skill_id@ == id {
        Some(list.last())
    } else {
        active_entry(list.drop_last(), id)
    }
}

/// The key bytes of the first trusted signer with key text `t`.
pub open spec fn signer_bytes(signers: Seq<(Seq<char>, Seq<u8>)>, t: Seq<char>) -> Option<Seq<u8>>
    decreases signers.len(),
{
    if signers.len() == 0 {
        None
    } else if signers[0].0 == t {
        Some(signers[0].1)
    } else {
        signer_bytes(signers.drop_first(), t)
    }
}

/// Whether `id` has a valid active signed entry, or why checking it fails:
/// no entry is `false`; an untrusted signer, a signature that does not
/// decode or has the wrong length, or one that does not verify, is an error.
pub open spec fn entry_check(config: PolicyConfig, id: Seq<char>) -> Result<bool, Seq<char>> {
    match active_entry(config.signed_skill_allowlist@, id) {
        None => Ok(false),
        Some(e) => match signer_bytes(signers_outcome(config.trusted_skill_signers@).0, trim(e.signer@)) {
            None => Err("Skill '"@ + id + "' is blocked: signed allowlist entry signer '"@ + e.signer@
                + "' is not in trusted_skill_signers."@),
            Some(key) => match base64_decoded(trim(e.signature@)) {
                Err(err) => Err("Invalid base64 signature for '"@ + id + "': "@ + err),
                Ok(sig) => if sig.len() != 64 {
                    Err("Invalid Ed25519 signature for '"@ + id + "': "@ + signature_length_error())
                } else if !ed25519_signature_valid(key, payload_text(e.skill_id@, e.signer@, e.source@, e.active), sig) {
                    Err("Skill '"@ + id + "' is blocked: signed allowlist signature verification failed for signer '"@
                        + e.signer@ + "'."@)
                } else {
                    Ok(true)
                },
            },
        },
    }
}

/// The activation decision for `id` under `config`.
pub open spec fn activation_decision(config: PolicyConfig, id: Seq<char>) -> Result<(), Seq<char>> {
    match signers_outcome(config.trusted_skill_signers@).1 {
        Some(err) => Err("Skill policy configuration error: "@ + err),
        None => match entry_check(config, id) {
            Err(e) => Err(e),
            Ok(valid) => if config.trusted_skill_signers@.len() > 0 && external_id(id) && !valid {
                Err("Skill '"@ + id + "' is blocked: signed allowlist verification is required for external skills and no valid active entry was found."@)
            } else {
                Ok(())
            },
        },
    }
}

/// The trimmed, non-empty approved ids.
pub open spec fn approved_ids(config: PolicyConfig) -> Set<Seq<char>> {
    Set::new(|t: Seq<char>| t.len() > 0 && exists|k: int| 0 <= k < config.approved_skill_ids@.len()
        && trim((#[trigger] config.approved_skill_ids@[k])@) == t)
}

/// The execution decision for `id` under `config`: activation must pass;
/// then, when an approval list is configured, the id must be on it or have
/// a valid signed entry.
pub open spec fn execution_decision(config: PolicyConfig, id: Seq<char>) -> Result<(), Seq<char>> {
    match activation_decision(config, id) {
        Err(e) => Err(e),
        Ok(()) => {
            let valid = match entry_check(config, id) {
                Ok(v) => v,
                Err(_) => false,
            };
            if !approved_ids(config).is_empty() && !approved_ids(config).contains(id) && !valid {
                Err("Skill '"@ + id + "' is blocked: not in approved_skill_ids and no valid signed allowlist entry is active."@)
            } else {
                Ok(())
            }
        },
    }
}

impl SkillExecutionPolicy {
    /// The config this policy was built from.
    pub closed spec fn source(&self) -> PolicyConfig {
        self.config@
    }

    /// The policy agrees with its config.
    pub closed spec fn wf(&self) -> bool {
        &&& self.strict_signed_external == (self.source().trusted_skill_signers@.len() > 0)
        &&& (forall|k: int| 0 <= k < self.approved_skill_ids@.len() ==> approved_ids(self.source()).contains((#[trigger] self.approved_skill_ids@[k])@))
        &&& (forall|t: Seq<char>| approved_ids(self.source()).contains(t) ==> strings_view(self.approved_skill_ids@).contains(t))
        &&& self.trusted_signers@.map_values(|s: TrustedSigner| (s.key_text@, s.key@)) == signers_outcome(self.source().trusted_skill_signers@).0
        &&& (match self.configuration_error {
            Some(e) => signers_outcome(self.source().trusted_skill_signers@).1 == Some(e@),
            None => signers_outcome(self.source().trusted_skill_signers@).1 is None,
        })
        &&& self.signed_entries@ == self.source().signed_skill_allowlist@
    }
}

impl SkillExecutionPolicy {
    /// Build the policy from the config: trusted signers are decoded in
    /// order until one fails (which becomes the configuration error);
    /// approved ids are trimmed; an allowlist entry counts when active, the
    /// last one per skill id winning; signed mode for external skills is
    /// strict when any trusted signer is configured.
    pub fn from_app_config(config: &PolicyConfig) -> (p: Self)
        ensures
            p.wf(),
            p.source() == *config,
    {
        let mut trusted: Vec<TrustedSigner> = Vec::new();
        let mut configuration_error: Option<String> = None;
        let mut i: usize = 0;
        let mut stop = false;
        let ghost signers = config.trusted_skill_signers@;
        while i < config.trusted_skill_signers.len() && !stop
            invariant
                i <= signers.len(),
                signers == config.trusted_skill_signers@,
                !stop ==> configuration_error is None,
                !stop ==> trusted@.map_values(|s: TrustedSigner| (s.key_text@, s.key@)) == signers_outcome(signers.take(i as int)).0,
                !stop ==> signers_outcome(signers.take(i as int)).1 is None,
                stop ==> trusted@.map_values(|s: TrustedSigner| (s.key_text@, s.key@)) == signers_outcome(signers).0,
                stop ==> (configuration_error matches Some(e) && signers_outcome(signers).1 == Some(e@)),
            decreases signers.len() - i, if stop { 0int } else { 1int },
        {
            proof {
                assert(signers.take(i + 1).drop_last() =~= signers.take(i as int));
            }
            let cs = chars_of(config.trusted_skill_signers[i].as_str());
            let t = trim_chars(cs.as_slice());
            if t.len() > 0 {
                let ts = string_of(t.as_slice());
                match decode_signer_key(ts.as_str()) {
                    Ok(key) => {
                        trusted.push(TrustedSigner { key_text: ts, key });
                        proof {
                            assert(trusted@.map_values(|s: TrustedSigner| (s.key_text@, s.key@)) =~= signers_outcome(signers.take(i + 1)).0);
                        }
                        i += 1;
                    },
                    Err(e) => {
                        let mut v: Vec<char> = Vec::new();
                        append_str(&mut v, "Invalid trusted signer key '");
                        append_str(&mut v, ts.as_str());
                        append_str(&mut v, "': ");
                        append_str(&mut v, e.as_str());
                        configuration_error = Some(string_of(v.as_slice()));
                        proof {
                            lemma_signers_error_sticks(signers, i + 1);
                        }
                        stop = true;
                    },
                }
            } else {
                i += 1;
            }
        }
        proof {
            if !stop {
                assert(signers.take(signers.len() as int) =~= signers);
            }
        }
        let mut approved: Vec<String> = Vec::new();
        let mut k: usize = 0;
        while k < config.approved_skill_ids.len()
            invariant
                k <= config.approved_skill_ids@.len(),
                forall|q: int| 0 <= q < approved@.len() ==> approved_ids(*config).contains((#[trigger] approved@[q])@),
                forall|t: Seq<char>| t.len() > 0 && (exists|q: int| 0 <= q < k && trim((#[trigger] config.approved_skill_ids@[q])@) == t)
                    ==> strings_view(approved@).contains(t),
            decreases config.approved_skill_ids@.len() - k,
        {
            let cs = chars_of(config.approved_skill_ids[k].as_str());
            let t = trim_chars(cs.as_slice());
            let ghost before = approved@;
            if t.len() > 0 {
                approved.push(string_of(t.as_slice()));
                proof {
                    assert(strings_view(approved@)[approved@.len() - 1] == t@);
                }
            }
            proof {
                assert forall|tt: Seq<char>| tt.len() > 0 && (exists|q: int| 0 <= q < k + 1 && trim((#[trigger] config.approved_skill_ids@[q])@) == tt)
                    implies strings_view(approved@).contains(tt) by {
                    let q = choose|q: int| 0 <= q < k + 1 && trim((#[trigger] config.approved_skill_ids@[q])@) == tt;
                    if q < k {
                        assert(strings_view(before).contains(tt));
                        let j = choose|j: int| 0 <= j < strings_view(before).len() && strings_view(before)[j] == tt;
                        assert(approved@[j] == before[j]);
                        assert(strings_view(approved@)[j] == tt);
                    } else {
                        assert(strings_view(approved@)[approved@.len() - 1] == tt);
                    }
                }
            }
            k += 1;
        }
        let mut entries: Vec<SignedSkillAllowlistEntry> = Vec::new();
        let mut j: usize = 0;
        while j < config.signed_skill_allowlist.len()
            invariant
                j <= config.signed_skill_allowlist@.len(),
                entries@ == config.signed_skill_allowlist@.take(j as int),
            decreases config.signed_skill_allowlist@.len() - j,
        {
            entries.push(config.signed_skill_allowlist[j].clone());
            assert(entries@ =~= config.signed_skill_allowlist@.take(j + 1));
            j += 1;
        }
        assert(config.signed_skill_allowlist@.take(config.signed_skill_allowlist@.len() as int) =~= config.signed_skill_allowlist@);
        let p = SkillExecutionPolicy {
            approved_skill_ids: approved,
            signed_entries: entries,
            trusted_signers: trusted,
            strict_signed_external: config.trusted_skill_signers.len() > 0,
            configuration_error,
            config: Ghost(*config),
        };
        proof {
            assert forall|t: Seq<char>| approved_ids(p.source()).contains(t) implies strings_view(p.approved_skill_ids@).contains(t) by {
                assert(t.len() > 0);
            }
        }
        p
    }

    fn find_active_entry(&self, skill_id: &str) -> (r: Option<usize>)
        ensures
            r is None ==> active_entry(self.signed_entries@, skill_id@) is None,
            r matches Some(i) ==> i < self.signed_entries@.len() && active_entry(self.signed_entries@, skill_id@) == Some(self.signed_entries@[i as int]),
    {
        let mut k: usize = self.signed_entries.len();
        assert(self.signed_entries@.take(k as int) =~= self.signed_entries@);
        while k > 0
            invariant
                k <= self.signed_entries@.len(),
                active_entry(self.signed_entries@, skill_id@) == active_entry(self.signed_entries@.take(k as int), skill_id@),
            decreases k,
        {
            assert(self.signed_entries@.take(k as int).drop_last() =~= self.signed_entries@.take(k - 1));
            let e = &self.signed_entries[k - 1];
            if e.active && str_eq(e.skill_id.as_str(), skill_id) {
                return Some(k - 1);
            }
            k -= 1;
        }
        None
    }

    fn find_signer(&self, key_text: &[char]) -> (r: Option<usize>)
        ensures
            r is None ==> signer_bytes(self.trusted_signers@.map_values(|s: TrustedSigner| (s.key_text@, s.key@)), key_text@) is None,
            r matches Some(i) ==> i < self.trusted_signers@.len()
                && signer_bytes(self.trusted_signers@.map_values(|s: TrustedSigner| (s.key_text@, s.key@)), key_text@) == Some(self.trusted_signers@[i as int].key@),
    {
        let ghost view = self.trusted_signers@.map_values(|s: TrustedSigner| (s.key_text@, s.key@));
        let mut i: usize = 0;
        assert(view.skip(0) =~= view);
        while i < self.trusted_signers.len()
            invariant
                i <= self.trusted_signers@.len(),
                view == self.trusted_signers@.map_values(|s: TrustedSigner| (s.key_text@, s.key@)),
                signer_bytes(view, key_text@) == signer_bytes(view.skip(i as int), key_text@),
            decreases self.trusted_signers@.len() - i,
        {
            assert(view.skip(i as int)[0] == view[i as int]);
            let kt = chars_of(self.trusted_signers[i].key_text.as_str());
            if crate::text::eq_chars(kt.as_slice(), key_text) {
                return Some(i);
            }
            assert(view.skip(i as int).drop_first() =~= view.skip(i + 1));
            i += 1;
        }
        None
    }

    /// Whether `skill_id` has a valid active signed entry (see
    /// `entry_check`).
    fn verify_active_signed_entry(&self, skill_id: &str) -> (r: Result<bool, String>)
        requires
            self.wf(),
        ensures
            r matches Ok(b) ==> entry_check(self.source(), skill_id@) == Ok::<bool, Seq<char>>(b),
            r matches Err(e) ==> entry_check(self.source(), skill_id@) == Err::<bool, Seq<char>>(e@),
    {
        let idx = match self.find_active_entry(skill_id) {
            Some(i) => i,
            None => {
                return Ok(false);
            },
        };
        let entry = &self.signed_entries[idx];
        let sc = chars_of(entry.signer.as_str());
        let signer_trim = trim_chars(sc.as_slice());
        let si = match self.find_signer(signer_trim.as_slice()) {
            Some(i) => i,
            None => {
                let mut v: Vec<char> = Vec::new();
                append_str(&mut v, "Skill '");
                append_str(&mut v, skill_id);
                append_str(&mut v, "' is blocked: signed allowlist entry signer '");
                append_str(&mut v, entry.signer.as_str());
                append_str(&mut v, "' is not in trusted_skill_signers.");
                return Err(string_of(v.as_slice()));
            },
        };
        let gc = chars_of(entry.signature.as_str());
        let sig_text = string_of(trim_chars(gc.as_slice()).as_slice());
        let sig = match base64_decode(sig_text.as_str()) {
            Ok(b) => b,
            Err(e) => {
                let mut v: Vec<char> = Vec::new();
                append_str(&mut v, "Invalid base64 signature for '");
                append_str(&mut v, skill_id);
                append_str(&mut v, "': ");
                append_str(&mut v, e.as_str());
                return Err(string_of(v.as_slice()));
            },
        };
        match check_signature_bytes(&sig) {
            Ok(()) => {},
            Err(e) => {
                let mut v: Vec<char> = Vec::new();
                append_str(&mut v, "Invalid Ed25519 signature for '");
                append_str(&mut v, skill_id);
                append_str(&mut v, "': ");
                append_str(&mut v, e.as_str());
                return Err(string_of(v.as_slice()));
            },
        }
        let payload = build_allowlist_payload(entry.skill_id.as_str(), entry.signer.as_str(), entry.source.as_str(), entry.active);
        proof {
            lemma_trusted_keys_valid(self.source().trusted_skill_signers@, trim(entry.signer@));
        }
        if !verify_signature(&self.trusted_signers[si].key, payload.as_str(), &sig) {
            let mut v: Vec<char> = Vec::new();
            append_str(&mut v, "Skill '");
            append_str(&mut v, skill_id);
            append_str(&mut v, "' is blocked: signed allowlist signature verification failed for signer '");
            append_str(&mut v, entry.signer.as_str());
            append_str(&mut v, "'.");
            return Err(string_of(v.as_slice()));
        }
        Ok(true)
    }

    /// Whether the skill may be activated (see `activation_decision`).
    pub fn evaluate_activation(&self, skill_id: &str) -> (r: Result<(), String>)
        requires
            self.wf(),
        ensures
            r is Ok <==> activation_decision(self.source(), skill_id@) is Ok,
            r matches Err(e) ==> activation_decision(self.source(), skill_id@) == Err::<(), Seq<char>>(e@),
    {
        match &self.configuration_error {
            Some(err) => {
                let mut v: Vec<char> = Vec::new();
                append_str(&mut v, "Skill policy configuration error: ");
                append_str(&mut v, err.as_str());
                return Err(string_of(v.as_slice()));
            },
            None => {},
        }
        let valid = match self.verify_active_signed_entry(skill_id) {
            Ok(b) => b,
            Err(e) => {
                return Err(e);
            },
        };
        if self.strict_signed_external && is_external_skill(skill_id) && !valid {
            let mut v: Vec<char> = Vec::new();
            append_str(&mut v, "Skill '");
            append_str(&mut v, skill_id);
            append_str(&mut v, "' is blocked: signed allowlist verification is required for external skills and no valid active entry was found.");
            return Err(string_of(v.as_slice()));
        }
        Ok(())
    }

    /// Whether the skill may run a tool (see `execution_decision`).
    pub fn evaluate_execution(&self, skill_id: &str) -> (r: Result<(), String>)
        requires
            self.wf(),
        ensures
            r is Ok <==> execution_decision(self.source(), skill_id@) is Ok,
            r matches Err(e) ==> execution_decision(self.source(), skill_id@) == Err::<(), Seq<char>>(e@),
    {
        match self.evaluate_activation(skill_id) {
            Ok(()) => {},
            Err(e) => {
                return Err(e);
            },
        }
        let valid = match self.find_active_entry(skill_id) {
            Some(_) => match self.verify_active_signed_entry(skill_id) {
                Ok(b) => b,
                Err(e) => {
                    return Err(e);
                },
            },
            None => false,
        };
        proof {
            assert(approved_ids(self.source()).is_empty() <==> self.approved_skill_ids@.len() == 0) by {
                if self.approved_skill_ids@.len() > 0 {
                    assert(approved_ids(self.source()).contains(self.approved_skill_ids@[0]@));
                }
                if !approved_ids(self.source()).is_empty() {
                    let t = approved_ids(self.source()).choose();
                    assert(strings_view(self.approved_skill_ids@).contains(t));
                }
            }
        }
        if self.approved_skill_ids.len() > 0 && !vec_has_str(&self.approved_skill_ids, skill_id) && !valid {
            let mut v: Vec<char> = Vec::new();
            append_str(&mut v, "Skill '");
            append_str(&mut v, skill_id);
            append_str(&mut v, "' is blocked: not in approved_skill_ids and no valid signed allowlist entry is active.");
            return Err(string_of(v.as_slice()));
        }
        Ok(())
    }
}

/// Once a signer key fails, the outcome keeps that failure.
pub proof fn lemma_signers_error_sticks(signers: Seq<String>, n: int)
    requires
        0 <= n <= signers.len(),
        signers_outcome(signers.take(n)).1 is Some,
    ensures
        signers_outcome(signers) == signers_outcome(signers.take(n)),
    decreases signers.len() - n,
{
    if n < signers.len() {
        assert(signers.take(n + 1).drop_last() =~= signers.take(n));
        lemma_signers_error_sticks(signers, n + 1);
    } else {
        assert(signers.take(n) =~= signers);
    }
}

/// Every trusted signer's bytes are a 32-byte key that decodes.
pub proof fn lemma_trusted_keys_valid(signers: Seq<String>, t: Seq<char>)
    ensures
        signer_bytes(signers_outcome(signers).0, t) matches Some(b) ==> b.len() == 32 && ed25519_key_error(b) is None,
        forall|k: int| 0 <= k < signers_outcome(signers).0.len() ==> (#[trigger] signers_outcome(signers).0[k]).1.len() == 32
            && ed25519_key_error(signers_outcome(signers).0[k].1) is None,
    decreases signers.len(),
{
    if signers.len() > 0 {
        lemma_trusted_keys_valid(signers.drop_last(), t);
    }
    lemma_signer_bytes_member(signers_outcome(signers).0, t);
}

/// A looked-up signer is one of the signers.
pub proof fn lemma_signer_bytes_member(signers: Seq<(Seq<char>, Seq<u8>)>, t: Seq<char>)
    ensures
        signer_bytes(signers, t) matches Some(b) ==> exists|k: int| 0 <= k < signers.len() && (#[trigger] signers[k]).1 == b,
    decreases signers.len(),
{
    if signers.len() > 0 && signers[0].0 != t {
        lemma_signer_bytes_member(signers.drop_first(), t);
        if let Some(b) = signer_bytes(signers.drop_first(), t) {
            let k = choose|k: int| 0 <= k < signers.drop_first().len() && (#[trigger] signers.drop_first()[k]).1 == b;
            assert(signers[k + 1].1 == b);
        }
    } else if signers.len() > 0 {
        assert(signers[0].1 == signer_bytes(signers, t)->0);
    }
}


/// A policy whose trusted-signer configuration is broken denies every skill,
/// both at activation and at execution.
pub proof fn lemma_config_error_denies_all(config: PolicyConfig, id: Seq<char>)
    requires
        signers_outcome(config.trusted_skill_signers@).1 is Some,
    ensures
        activation_decision(config, id) is Err,
        execution_decision(config, id) is Err,
{
}

/// An active allowlist entry that fails its check (untrusted signer, bad
/// signature) denies the skill, whatever the approval list says.
pub proof fn lemma_bad_entry_denies(config: PolicyConfig, id: Seq<char>)
    requires
        entry_check(config, id) is Err,
    ensures
        activation_decision(config, id) is Err,
        execution_decision(config, id) is Err,
{
}

/// With trusted signers configured, an external skill without an active
/// signed entry is denied.
pub proof fn lemma_strict_external_needs_entry(config: PolicyConfig, id: Seq<char>)
    requires
        config.trusted_skill_signers@.len() > 0,
        external_id(id),
        active_entry(config.signed_skill_allowlist@, id) is None,
    ensures
        activation_decision(config, id) is Err,
        execution_decision(config, id) is Err,
{
}

/// Execution is never allowed where activation is not.
pub proof fn lemma_execution_implies_activation(config: PolicyConfig, id: Seq<char>)
    ensures
        execution_decision(config, id) is Ok ==> activation_decision(config, id) is Ok,
{
}

/// With no trusted signers, no approval list and no active entry, every
/// skill is allowed.
pub proof fn lemma_open_policy_allows(config: PolicyConfig, id: Seq<char>)
    requires
        config.trusted_skill_signers@.len() == 0,
        config.approved_skill_ids@.len() == 0,
        active_entry(config.signed_skill_allowlist@, id) is None,
    ensures
        activation_decision(config, id) is Ok,
        execution_decision(config, id) is Ok,
{
    assert(signers_outcome(config.trusted_skill_signers@) == (Seq::<(Seq<char>, Seq<u8>)>::empty(), None::<Seq<char>>)) by {
        assert(config.trusted_skill_signers@ =~= Seq::<String>::empty());
    }
    assert(approved_ids(config) =~= Set::<Seq<char>>::empty());
}

} // verus!
