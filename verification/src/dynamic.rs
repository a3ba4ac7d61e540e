//! Dynamic API skills: skills defined by a JSON config of HTTP tools. This
//! module validates such configs, renders their URL, header and body
//! templates (secrets and parameters), guards the rendered URL against
//! requests to internal hosts, and prepares the request; sending it is the
//! host's part.
use vstd::prelude::*;
use crate::manifest::{NetworkPermission, Permission, SecretDescriptor, SkillId, SkillManifest};
use crate::ordered::{insert_sorted, strictly_sorted};
use crate::skill::SkillError;
use crate::text::{
    append_chars, append_str, chars_of, count_char, find_first, find_in, has_char, has_prefix,
    has_suffix, is_alphanumeric, lowercase, replace_all, replace_all_in, starts_with_str,
    ends_with_str, string_of, str_eq, strings_view, sub_chars, to_lowercase, to_uppercase,
    unicode_alphanumeric, uppercase, utf8_len, utf8_len_of, lower_chars, decimal, u64_to_decimal,
};
use crate::tool_args::{ArgValue, ToolArgs};
use crate::builtin_skills::failure_text;

verus! {

/// One HTTP tool of a dynamic skill.
#[derive(Debug)]
pub struct DynamicToolConfig {
    pub name: String,
    pub description: String,
    /// JSON schema of the parameters.
    pub parameters: serde_json::Value,
    pub method: String,
    pub url_template: String,
    /// Header names and value templates.
    pub headers: Vec<(String, String)>,
    pub body_template: Option<String>,
    /// Result fields and the JSON paths they are taken from.
    pub response_extract: Vec<(String, String)>,
    pub response_format: Option<String>,
}

/// A dynamic skill's config.
#[derive(Debug)]
pub struct DynamicSkillConfig {
    pub id: String,
    pub name: String,
    pub description: String,
    pub version: String,
    pub category: String,
    pub created_at: String,
    pub tools: Vec<DynamicToolConfig>,
}

/// Every character is alphanumeric or one of the extra characters.
pub open spec fn all_chars_ok(s: Seq<char>, extra1: char, extra2: char) -> bool {
    forall|i: int| 0 <= i < s.len() ==> unicode_alphanumeric(#[trigger] s[i]) || s[i] == extra1 || s[i] == extra2
}

fn chars_ok(s: &str, extra1: char, extra2: char) -> (r: bool)
    ensures
        r == all_chars_ok(s@, extra1, extra2),
{
    let cs = chars_of(s);
    let mut i: usize = 0;
    while i < cs.len()
        invariant
            i <= cs@.len(),
            cs@ == s@,
            forall|j: int| 0 <= j < i ==> unicode_alphanumeric(#[trigger] cs@[j]) || cs@[j] == extra1 || cs@[j] == extra2,
        decreases cs@.len() - i,
    {
        let c = cs[i];
        if !(is_alphanumeric(c) || c == extra1 || c == extra2) {
            return false;
        }
        i += 1;
    }
    true
}

/// The methods a dynamic tool may use.
pub open spec fn allowed_method(m: Seq<char>) -> bool {
    uppercase(m) == "GET"@ || uppercase(m) == "POST"@ || uppercase(m) == "PUT"@ || uppercase(m) == "DELETE"@
}

/// The error a tool config gives, if any: its name must have 3 to 64
/// bytes of alphanumerics and underscores, its method be GET, POST, PUT or
/// DELETE in any case, and its URL template start with `https://`.
pub open spec fn tool_config_error(t: DynamicToolConfig) -> Option<Seq<char>> {
    if utf8_len(t.name@) < 3 || utf8_len(t.name@) > 64 {
        Some("Tool name '"@ + t.name@ + "' must be 3-64 characters"@)
    } else if !all_chars_ok(t.name@, '_', '_') {
        Some("Tool name '"@ + t.name@ + "' may only contain alphanumeric characters and underscores"@)
    } else if !allowed_method(t.method@) {
        Some("Method '"@ + t.method@ + "' must be GET, POST, PUT, or DELETE"@)
    } else if !has_prefix(t.url_template@, "https://"@) {
        Some("URL template must start with https://, got: "@ + t.url_template@)
    } else {
        None
    }
}

fn concat3(a: &str, b: &str, c: &str) -> (s: String)
    ensures
        s@ == a@ + b@ + c@,
{
    let mut v: Vec<char> = Vec::new();
    append_str(&mut v, a);
    append_str(&mut v, b);
    append_str(&mut v, c);
    string_of(v.as_slice())
}

/// Check one tool config (see `tool_config_error`).
pub fn validate_tool_config(tool: &DynamicToolConfig) -> (r: Result<(), String>)
    ensures
        tool_config_error(*tool) matches Some(m) ==> r matches Err(e) && e@ == m,
        tool_config_error(*tool) is None ==> r is Ok,
{
    let name_chars = chars_of(tool.name.as_str());
    let n = utf8_len_of(name_chars.as_slice());
    if n < 3 || n > 64 {
        return Err(concat3("Tool name '", tool.name.as_str(), "' must be 3-64 characters"));
    }
    if !chars_ok(tool.name.as_str(), '_', '_') {
        return Err(concat3("Tool name '", tool.name.as_str(), "' may only contain alphanumeric characters and underscores"));
    }
    let up = to_uppercase(tool.method.as_str());
    if !(str_eq(up.as_str(), "GET") || str_eq(up.as_str(), "POST") || str_eq(up.as_str(), "PUT") || str_eq(up.as_str(), "DELETE")) {
        return Err(concat3("Method '", tool.method.as_str(), "' must be GET, POST, PUT, or DELETE"));
    }
    let url = chars_of(tool.url_template.as_str());
    proof {
        reveal_strlit("");
    }
    if !starts_with_str(url.as_slice(), "https://") {
        return Err(concat3("URL template must start with https://, got: ", tool.url_template.as_str(), ""));
    }
    Ok(())
}

/// The error a list of tools gives: tools are checked in order, each first
/// by `tool_config_error`, then for repeating an earlier tool's name.
pub open spec fn tools_error(tools: Seq<DynamicToolConfig>) -> Option<Seq<char>>
    decreases tools.len(),
{
    if tools.len() == 0 {
        None
    } else {
        match tools_error(tools.drop_last()) {
            Some(m) => Some(m),
            None => match tool_config_error(tools.last()) {
                Some(m) => Some(m),
                None => if exists|i: int| 0 <= i < tools.len() - 1 && (#[trigger] tools[i]).name@ == tools.last().name@ {
                    Some("Duplicate tool name: "@ + tools.last().name@)
                } else {
                    None
                },
            },
        }
    }
}

/// The error a skill config gives, if any: its id must start with
/// `dynamic.` or `custom.` and hold only alphanumerics, dots and
/// underscores; its name must not be empty; it must have 1 to 10 tools,
/// which must pass `tools_error`.
pub open spec fn config_error(c: DynamicSkillConfig) -> Option<Seq<char>> {
    if !has_prefix(c.id@, "dynamic."@) && !has_prefix(c.id@, "custom."@) {
        Some("Skill ID must start with 'dynamic.' or 'custom.'"@)
    } else if !all_chars_ok(c.id@, '.', '_') {
        Some("Skill ID may only contain alphanumeric characters, dots, and underscores"@)
    } else if c.name@.len() == 0 {
        Some("Skill name cannot be empty"@)
    } else if c.tools@.len() == 0 {
        Some("Skill must have at least one tool"@)
    } else if c.tools@.len() > 10 {
        Some("Skill may have at most 10 tools"@)
    } else {
        tools_error(c.tools@)
    }
}

/// Check a skill config (see `config_error`).
pub fn validate_config(config: &DynamicSkillConfig) -> (r: Result<(), String>)
    ensures
        config_error(*config) matches Some(m) ==> r matches Err(e) && e@ == m,
        config_error(*config) is None ==> r is Ok,
{
    let id = chars_of(config.id.as_str());
    if !starts_with_str(id.as_slice(), "dynamic.") && !starts_with_str(id.as_slice(), "custom.") {
        return Err("Skill ID must start with 'dynamic.' or 'custom.'".to_owned());
    }
    if !chars_ok(config.id.as_str(), '.', '_') {
        return Err("Skill ID may only contain alphanumeric characters, dots, and underscores".to_owned());
    }
    if chars_of(config.name.as_str()).len() == 0 {
        return Err("Skill name cannot be empty".to_owned());
    }
    if config.tools.len() == 0 {
        return Err("Skill must have at least one tool".to_owned());
    }
    if config.tools.len() > 10 {
        return Err("Skill may have at most 10 tools".to_owned());
    }
    assert(config_error(*config) == tools_error(config.tools@));
    let mut i: usize = 0;
    while i < config.tools.len()
        invariant
            i <= config.tools@.len(),
            config_error(*config) == tools_error(config.tools@),
            tools_error(config.tools@.take(i as int)) is None,
        decreases config.tools@.len() - i,
    {
        let ghost pre = config.tools@.take(i + 1);
        assert(pre.drop_last() =~= config.tools@.take(i as int));
        match validate_tool_config(&config.tools[i]) {
            Ok(()) => {},
            Err(e) => {
                proof {
                    assert(pre.last() == config.tools@[i as int]);
                    assert(config.tools@.take(config.tools@.len() as int) =~= config.tools@);
                    lemma_tools_error_prefix(config.tools@, i + 1);
                }
                return Err(e);
            },
        }
        let mut j: usize = 0;
        while j < i
            invariant
                j <= i,
                i < config.tools@.len(),
                pre == config.tools@.take(i + 1),
                config_error(*config) == tools_error(config.tools@),
                tools_error(pre.drop_last()) is None,
                tool_config_error(pre.last()) is None,
                forall|q: int| 0 <= q < j ==> config.tools@[q].name@ != config.tools@[i as int].name@,
            decreases i - j,
        {
            if str_eq(config.tools[j].name.as_str(), config.tools[i].name.as_str()) {
                proof {
                    reveal_strlit("");
                    assert(pre[j as int] == config.tools@[j as int]);
                    assert(pre.last() == config.tools@[i as int]);
                    assert(pre[j as int].name@ == pre.last().name@);
                    assert(config.tools@.take(config.tools@.len() as int) =~= config.tools@);
                    lemma_tools_error_prefix(config.tools@, i + 1);
                }
                return Err(concat3("Duplicate tool name: ", config.tools[i].name.as_str(), ""));
            }
            j += 1;
        }
        proof {
            assert forall|q: int| 0 <= q < pre.len() - 1 implies (#[trigger] pre[q]).name@ != pre.last().name@ by {
                assert(pre[q] == config.tools@[q]);
            }
        }
        i += 1;
    }
    assert(config.tools@.take(config.tools@.len() as int) =~= config.tools@);
    Ok(())
}

/// An error found in a prefix is the error of the whole list.
proof fn lemma_tools_error_prefix(tools: Seq<DynamicToolConfig>, n: int)
    requires
        0 <= n <= tools.len(),
        tools_error(tools.take(n)) is Some,
    ensures
        tools_error(tools) == tools_error(tools.take(n)),
    decreases tools.len() - n,
{
    if n < tools.len() {
        assert(tools.take(n + 1).drop_last() =~= tools.take(n));
        lemma_tools_error_prefix(tools, n + 1);
    } else {
        assert(tools.take(n) =~= tools);
    }
}

/// The secret names referenced by `{{secret:<name>}}` in a template, in
/// order; an unclosed reference ends the list.
pub open spec fn secret_refs(t: Seq<char>) -> Seq<Seq<char>>
    decreases t.len(),
{
    match find_first(t, "{{secret:"@) {
        None => Seq::empty(),
        Some(start) => {
            let rest = t.skip(start + 9int);
            if start + 9 > t.len() {
                Seq::empty()
            } else {
                match find_first(rest, "}}"@) {
                    None => Seq::empty(),
                    Some(end) => if end + 2 <= rest.len() {
                        seq![rest.take(end as int)] + secret_refs(rest.skip(end + 2int))
                    } else {
                        Seq::empty()
                    },
                }
            }
        },
    }
}

pub proof fn lemma_find_first_bound(t: Seq<char>, pat: Seq<char>)
    ensures
        find_first(t, pat) matches Some(i) ==> i + pat.len() <= t.len() && t.subrange(i as int, i + pat.len() as int) == pat,
    decreases t.len(),
{
    if t.len() >= pat.len() && t.subrange(0, pat.len() as int) != pat && t.len() > 0 {
        lemma_find_first_bound(t.drop_first(), pat);
        if let Some(i) = find_first(t.drop_first(), pat) {
            assert(t.subrange(i + 1int, i + 1int + pat.len()) =~= t.drop_first().subrange(i as int, i + pat.len() as int));
        }
    }
}

/// Append the secret names referenced in `template` to `out`.
pub fn extract_secret_refs(template: &str, out: &mut Vec<String>)
    ensures
        strings_view(final(out)@) == strings_view(old(out)@) + secret_refs(template@),
{
    proof {
        reveal_strlit("{{secret:");
        reveal_strlit("}}");
    }
    let open_pat = chars_of("{{secret:");
    let close_pat = chars_of("}}");
    let mut search = chars_of(template);
    let ghost start_out = strings_view(out@);
    loop
        invariant
            open_pat@ == "{{secret:"@,
            close_pat@ == "}}"@,
            start_out + secret_refs(template@) == strings_view(out@) + secret_refs(search@),
        ensures
            start_out + secret_refs(template@) == strings_view(out@),
        decreases search@.len(),
    {
        proof {
            reveal_strlit("{{secret:");
            reveal_strlit("}}");
            assert(open_pat@.len() == 9);
            lemma_find_first_bound(search@, open_pat@);
        }
        let start = match find_in(search.as_slice(), open_pat.as_slice()) {
            Some(s) => s,
            None => {
                assert(secret_refs(search@) =~= Seq::<Seq<char>>::empty());
                assert(strings_view(out@) + Seq::<Seq<char>>::empty() =~= strings_view(out@));
                break;
            },
        };
        let slen = search.len();
        proof {
            assert(find_first(search@, open_pat@) == Some(start as nat));
            assert(start + 9 <= slen);
        }
        let rest = sub_chars(search.as_slice(), start + 9, slen);
        proof {
            lemma_find_first_bound(rest@, close_pat@);
        }
        match find_in(rest.as_slice(), close_pat.as_slice()) {
            Some(end) => {
                let key = sub_chars(rest.as_slice(), 0, end);
                let ghost before = strings_view(out@);
                out.push(string_of(key.as_slice()));
                let next = sub_chars(rest.as_slice(), end + 2, rest.len());
                proof {
                    assert(rest@ =~= search@.skip(start + 9));
                    assert(find_first(search@, "{{secret:"@) == Some(start as nat));
                    assert(find_first(rest@, "}}"@) == Some(end as nat));
                    assert(key@ =~= rest@.take(end as int));
                    assert(next@ =~= rest@.skip(end + 2));
                    assert(strings_view(out@) =~= before.push(key@));
                    assert(secret_refs(search@) == seq![key@] + secret_refs(next@));
                    assert(before + (seq![key@] + secret_refs(next@)) =~= before.push(key@) + secret_refs(next@));
                }
                search = next;
            },
            None => {
                proof {
                    assert(rest@ =~= search@.skip(start + 9));
                    assert(secret_refs(search@) =~= Seq::<Seq<char>>::empty());
                    assert(strings_view(out@) + Seq::<Seq<char>>::empty() =~= strings_view(out@));
                }
                break;
            },
        }
    }
}

/// The secret names referenced in header value templates, in order.
pub open spec fn header_refs(headers: Seq<(String, String)>) -> Seq<Seq<char>>
    decreases headers.len(),
{
    if headers.len() == 0 {
        Seq::empty()
    } else {
        header_refs(headers.drop_last()) + secret_refs(headers.last().1@)
    }
}

/// The secret names a tool references: URL, header values, body.
pub open spec fn tool_refs(t: DynamicToolConfig) -> Seq<Seq<char>> {
    secret_refs(t.url_template@) + header_refs(t.headers@) + match t.body_template {
        Some(b) => secret_refs(b@),
        None => Seq::empty(),
    }
}

/// The secret names all tools reference.
pub open spec fn tools_refs(tools: Seq<DynamicToolConfig>) -> Seq<Seq<char>>
    decreases tools.len(),
{
    if tools.len() == 0 {
        Seq::empty()
    } else {
        tools_refs(tools.drop_last()) + tool_refs(tools.last())
    }
}

/// The secret names a config references, sorted and without repeats.
pub fn extract_secret_keys(config: &DynamicSkillConfig) -> (keys: Vec<String>)
    ensures
        strictly_sorted(strings_view(keys@)),
        strings_view(keys@).to_set() == tools_refs(config.tools@).to_set(),
{
    let mut refs: Vec<String> = Vec::new();
    let mut i: usize = 0;
    assert(strings_view(refs@) =~= tools_refs(config.tools@.take(0)));
    while i < config.tools.len()
        invariant
            i <= config.tools@.len(),
            strings_view(refs@) == tools_refs(config.tools@.take(i as int)),
        decreases config.tools@.len() - i,
    {
        let t = &config.tools[i];
        let ghost r0 = strings_view(refs@);
        extract_secret_refs(t.url_template.as_str(), &mut refs);
        let mut h: usize = 0;
        assert(header_refs(t.headers@.take(0)) =~= Seq::<Seq<char>>::empty());
        while h < t.headers.len()
            invariant
                h <= t.headers@.len(),
                strings_view(refs@) == r0 + secret_refs(t.url_template@) + header_refs(t.headers@.take(h as int)),
            decreases t.headers@.len() - h,
        {
            extract_secret_refs(t.headers[h].1.as_str(), &mut refs);
            proof {
                assert(t.headers@.take(h + 1).drop_last() =~= t.headers@.take(h as int));
                assert(strings_view(refs@) =~= r0 + secret_refs(t.url_template@) + header_refs(t.headers@.take(h + 1)));
            }
            h += 1;
        }
        assert(t.headers@.take(t.headers@.len() as int) =~= t.headers@);
        match &t.body_template {
            Some(b) => {
                extract_secret_refs(b.as_str(), &mut refs);
            },
            None => {},
        }
        proof {
            assert(config.tools@.take(i + 1).drop_last() =~= config.tools@.take(i as int));
            assert(config.tools@.take(i + 1).last() == config.tools@[i as int]);
            assert(strings_view(refs@) =~= tools_refs(config.tools@.take(i + 1)));
        }
        i += 1;
    }
    assert(config.tools@.take(config.tools@.len() as int) =~= config.tools@);
    let mut keys: Vec<String> = Vec::new();
    let mut k: usize = 0;
    assert(strings_view(keys@).to_set() =~= strings_view(refs@.take(0)).to_set());
    while k < refs.len()
        invariant
            k <= refs@.len(),
            strictly_sorted(strings_view(keys@)),
            strings_view(keys@).to_set() == strings_view(refs@.take(k as int)).to_set(),
        decreases refs@.len() - k,
    {
        insert_sorted(&mut keys, refs[k].clone());
        proof {
            assert(strings_view(refs@.take(k + 1)) =~= strings_view(refs@.take(k as int)).push(refs@[k as int]@));
            strings_view(refs@.take(k as int)).lemma_push_to_set_commute(refs@[k as int]@);
        }
        k += 1;
    }
    assert(refs@.take(refs@.len() as int) =~= refs@);
    keys
}

// ------------------------------------------------------------ templates

/// The value stored under `key`, if any (first entry wins).
pub open spec fn vault_get(vault: Seq<(String, String)>, key: Seq<char>) -> Option<Seq<char>>
    decreases vault.len(),
{
    if vault.len() == 0 {
        None
    } else if vault[0].0@ == key {
        Some(vault[0].1@)
    } else {
        vault_get(vault.drop_first(), key)
    }
}

/// No stored secret value contains `{`.
pub open spec fn brace_free(vault: Seq<(String, String)>) -> bool {
    forall|k: int| 0 <= k < vault.len() ==> count_char((#[trigger] vault[k]).1@, '{') == 0
}

/// Error text for an unclosed secret reference.
pub open spec fn unclosed_text() -> Seq<char> {
    "Unclosed {{secret:...}} template"@
}

/// Error text for a referenced secret that is not stored.
pub open spec fn not_configured_text() -> Seq<char> {
    "A required secret is not configured. Check skill configuration and store the needed secret with store_secret."@
}

pub proof fn lemma_count_char_add(a: Seq<char>, b: Seq<char>, c: char)
    ensures
        count_char(a + b, c) == count_char(a, c) + count_char(b, c),
    decreases b.len(),
{
    if b.len() == 0 {
        assert(a + b =~= a);
    } else {
        lemma_count_char_add(a, b.drop_last(), c);
        assert((a + b).drop_last() =~= a + b.drop_last());
    }
}

pub proof fn lemma_vault_get_free(vault: Seq<(String, String)>, key: Seq<char>)
    requires
        brace_free(vault),
    ensures
        vault_get(vault, key) matches Some(v) ==> count_char(v, '{') == 0,
    decreases vault.len(),
{
    if vault.len() > 0 && vault[0].0@ != key {
        assert forall|k: int| 0 <= k < vault.drop_first().len() implies count_char((#[trigger] vault.drop_first()[k]).1@, '{') == 0 by {
            assert(vault.drop_first()[k] == vault[k + 1]);
        }
        lemma_vault_get_free(vault.drop_first(), key);
    }
}

/// Substituting one secret reference removes at least the two `{` that
/// open it.
pub proof fn lemma_secret_step_decreases(t: Seq<char>, start: int, end: int, v: Seq<char>)
    requires
        0 <= start,
        start + end + 2 <= t.len(),
        9 <= end,
        t.subrange(start, start + 9) == "{{secret:"@,
        count_char(v, '{') == 0,
    ensures
        count_char(t.take(start) + v + t.skip(start + end + 2), '{') + 2 <= count_char(t, '{'),
{
    reveal_strlit("{{secret:");
    let a = t.take(start);
    let m = t.subrange(start, start + end + 2);
    let z = t.skip(start + end + 2);
    assert(t =~= a + m + z);
    lemma_count_char_add(a + m, z, '{');
    lemma_count_char_add(a, m, '{');
    lemma_count_char_add(a, v, '{');
    lemma_count_char_add(a + v, z, '{');
    let m2 = m.skip(2);
    assert(m[0] == '{' && m[1] == '{') by {
        assert(m[0] == t.subrange(start, start + 9)[0]);
        assert(m[1] == t.subrange(start, start + 9)[1]);
    }
    assert(m =~= seq!['{', '{'] + m2);
    lemma_count_char_add(seq!['{', '{'], m2, '{');
    assert(seq!['{', '{'].drop_last() =~= seq!['{']);
    assert(seq!['{'].drop_last() =~= Seq::<char>::empty());
    assert(count_char(Seq::<char>::empty(), '{') == 0);
    assert(seq!['{'].last() == '{');
    assert(count_char(seq!['{'], '{') == 1);
    assert(count_char(seq!['{', '{'], '{') == 2);
}

/// One step of secret substitution on `t`: `None` when no `{{secret:`
/// reference is left; otherwise the leftmost reference replaced by its
/// stored value, or the error of an unclosed reference or of a secret that
/// is not stored.
pub open spec fn secret_step(t: Seq<char>, vault: Seq<(String, String)>) -> Option<Result<Seq<char>, Seq<char>>> {
    match find_first(t, "{{secret:"@) {
        None => None,
        Some(start) => match find_first(t.skip(start as int), "}}"@) {
            None => Some(Err(unclosed_text())),
            Some(end) => if end < 9 || start + end + 2 > t.len() {
                Some(Err(unclosed_text()))
            } else {
                match vault_get(vault, t.subrange(start + 9int, start + end as int)) {
                    None => Some(Err(not_configured_text())),
                    Some(v) => Some(Ok(t.take(start as int) + v + t.skip(start + end + 2int))),
                }
            },
        },
    }
}

/// Secret substitution on `t` comes to an end (no reference left, or an
/// error) within `n` replacements.
pub open spec fn secrets_end_within(t: Seq<char>, vault: Seq<(String, String)>, n: nat) -> bool
    decreases n,
{
    match secret_step(t, vault) {
        Some(Ok(next)) => n > 0 && secrets_end_within(next, vault, (n - 1) as nat),
        _ => true,
    }
}

/// Secret substitution on `t` comes to an end. It does not when a stored
/// value brings back a reference that leads round again, for ever.
pub open spec fn secrets_terminate(t: Seq<char>, vault: Seq<(String, String)>) -> bool {
    exists|n: nat| #[trigger] secrets_end_within(t, vault, n)
}

/// Secret substitution on `t` with at most `n` replacements.
pub open spec fn secrets_rendered_in(t: Seq<char>, vault: Seq<(String, String)>, n: nat) -> Result<Seq<char>, Seq<char>>
    decreases n,
{
    match secret_step(t, vault) {
        None => Ok(t),
        Some(Err(e)) => Err(e),
        Some(Ok(next)) => if n == 0 {
            Ok(next)
        } else {
            secrets_rendered_in(next, vault, (n - 1) as nat)
        },
    }
}

/// The secret references of a template replaced, one at a time from the
/// left, by the stored values; each replacement starts the search again
/// from the beginning (meaningful where `secrets_terminate` holds).
pub open spec fn render_secrets(t: Seq<char>, vault: Seq<(String, String)>) -> Result<Seq<char>, Seq<char>> {
    secrets_rendered_in(t, vault, choose|n: nat| secrets_end_within(t, vault, n))
}

/// With no `{` in any stored value, every substitution removes a reference
/// for good, so substitution always comes to an end.
pub proof fn lemma_brace_free_terminates(t: Seq<char>, vault: Seq<(String, String)>)
    requires
        brace_free(vault),
    ensures
        secrets_terminate(t, vault),
    decreases count_char(t, '{'),
{
    match secret_step(t, vault) {
        Some(Ok(next)) => {
            let start = find_first(t, "{{secret:"@)->0;
            let end = find_first(t.skip(start as int), "}}"@)->0;
            let v = vault_get(vault, t.subrange(start + 9int, start + end as int))->0;
            lemma_find_first_bound(t, "{{secret:"@);
            reveal_strlit("{{secret:");
            lemma_vault_get_free(vault, t.subrange(start + 9int, start + end as int));
            lemma_secret_step_decreases(t, start as int, end as int, v);
            lemma_brace_free_terminates(next, vault);
            let n = choose|n: nat| secrets_end_within(next, vault, n);
            assert(secrets_end_within(t, vault, n + 1));
        },
        _ => {
            assert(secrets_end_within(t, vault, 0));
        },
    }
}

/// The text an argument value is substituted as: a string as is, `null`,
/// or the value's JSON text.
pub open spec fn arg_text(v: ArgValue) -> Seq<char> {
    match v {
        ArgValue::Str(s) => s@,
        ArgValue::Null => "null"@,
        ArgValue::Other { json, .. } => json@,
    }
}

/// Each `{{<name>}}` placeholder replaced by its argument's text, argument
/// by argument in order.
pub open spec fn fill_params(t: Seq<char>, params: Seq<(String, ArgValue)>) -> Seq<char>
    decreases params.len(),
{
    if params.len() == 0 {
        t
    } else {
        fill_params(replace_all(t, "{{"@ + params[0].0@ + "}}"@, arg_text(params[0].1)), params.drop_first())
    }
}

/// A template rendered: secrets first (see `render_secrets`), then
/// parameters (see `fill_params`).
pub open spec fn render_spec(t: Seq<char>, params: Seq<(String, ArgValue)>, vault: Seq<(String, String)>) -> Result<Seq<char>, Seq<char>> {
    match render_secrets(t, vault) {
        Ok(s) => Ok(fill_params(s, params)),
        Err(e) => Err(e),
    }
}

fn lookup_secret(vault: &[(String, String)], key: &[char]) -> (r: Option<String>)
    ensures
        r matches Some(v) ==> vault_get(vault@, key@) == Some(v@),
        r is None ==> vault_get(vault@, key@) is None,
{
    let mut i: usize = 0;
    assert(vault@.skip(0) =~= vault@);
    while i < vault.len()
        invariant
            i <= vault@.len(),
            vault_get(vault@, key@) == vault_get(vault@.skip(i as int), key@),
        decreases vault@.len() - i,
    {
        assert(vault@.skip(i as int)[0] == vault@[i as int]);
        let k = chars_of(vault[i].0.as_str());
        if crate::text::eq_chars(k.as_slice(), key) {
            return Some(vault[i].1.clone());
        }
        assert(vault@.skip(i as int).drop_first() =~= vault@.skip(i + 1));
        i += 1;
    }
    None
}

fn arg_text_of(v: &ArgValue) -> (s: Vec<char>)
    ensures
        s@ == arg_text(*v),
{
    proof {
        reveal_strlit("null");
    }
    match v {
        ArgValue::Str(s) => chars_of(s.as_str()),
        ArgValue::Null => chars_of("null"),
        ArgValue::Other { json, .. } => chars_of(json.as_str()),
    }
}

/// Replace each `{{<name>}}` placeholder by its argument's text.
pub fn fill_placeholders(t: &[char], params: &[(String, ArgValue)]) -> (r: Vec<char>)
    ensures
        r@ == fill_params(t@, params@),
{
    let mut cur: Vec<char> = sub_chars(t, 0, t.len());
    assert(cur@ =~= t@);
    let mut i: usize = 0;
    assert(params@.skip(0) =~= params@);
    while i < params.len()
        invariant
            i <= params@.len(),
            fill_params(t@, params@) == fill_params(cur@, params@.skip(i as int)),
        decreases params@.len() - i,
    {
        let mut ph: Vec<char> = Vec::new();
        append_str(&mut ph, "{{");
        append_str(&mut ph, params[i].0.as_str());
        append_str(&mut ph, "}}");
        proof {
            reveal_strlit("{{");
        }
        let rep = arg_text_of(&params[i].1);
        let next = replace_all_in(cur.as_slice(), ph.as_slice(), rep.as_slice());
        proof {
            assert(params@.skip(i as int)[0] == params@[i as int]);
            assert(params@.skip(i as int).drop_first() =~= params@.skip(i + 1));
        }
        cur = next;
        i += 1;
    }
    cur
}

/// Render a template: secret references from `vault`, then parameters.
/// The secret substitution must come to an end (see `secrets_terminate`;
/// `lemma_brace_free_terminates` gives it for any vault without `{`).
pub fn render_template(template: &str, params: &ToolArgs, vault: &[(String, String)]) -> (r: Result<String, String>)
    requires
        secrets_terminate(template@, vault@),
    ensures
        r matches Ok(s) ==> render_spec(template@, params.entries@, vault@) == Ok::<Seq<char>, Seq<char>>(s@),
        r matches Err(e) ==> render_spec(template@, params.entries@, vault@) == Err::<Seq<char>, Seq<char>>(e@),
{
    proof {
        reveal_strlit("{{secret:");
        reveal_strlit("}}");
    }
    let open_pat = chars_of("{{secret:");
    let close_pat = chars_of("}}");
    let mut result = chars_of(template);
    let ghost mut k: nat = choose|n: nat| secrets_end_within(template@, vault@, n);
    loop
        invariant
            open_pat@ == "{{secret:"@,
            close_pat@ == "}}"@,
            secrets_end_within(result@, vault@, k),
            render_secrets(template@, vault@) == secrets_rendered_in(result@, vault@, k),
        ensures
            render_secrets(template@, vault@) == Ok::<Seq<char>, Seq<char>>(result@),
        decreases k,
    {
        proof {
            reveal_strlit("{{secret:");
            reveal_strlit("}}");
            lemma_find_first_bound(result@, open_pat@);
        }
        let start = match find_in(result.as_slice(), open_pat.as_slice()) {
            Some(s) => s,
            None => {
                proof {
                    assert(secret_step(result@, vault@) is None);
                }
                break;
            },
        };
        let tail = sub_chars(result.as_slice(), start, result.len());
        proof {
            assert(tail@ =~= result@.skip(start as int));
            lemma_find_first_bound(tail@, close_pat@);
        }
        let end = match find_in(tail.as_slice(), close_pat.as_slice()) {
            Some(e) => e,
            None => {
                proof {
                    assert(secret_step(result@, vault@) == Some(Err::<Seq<char>, Seq<char>>(unclosed_text())));
                }
                return Err("Unclosed {{secret:...}} template".to_owned());
            },
        };
        let rlen = result.len();
        proof {
            assert(start + end + 2 <= rlen);
        }
        if end < 9 {
            proof {
                assert(secret_step(result@, vault@) == Some(Err::<Seq<char>, Seq<char>>(unclosed_text())));
            }
            return Err("Unclosed {{secret:...}} template".to_owned());
        }
        let key = sub_chars(result.as_slice(), start + 9, start + end);
        let value = match lookup_secret(vault, key.as_slice()) {
            Some(v) => v,
            None => {
                proof {
                    assert(secret_step(result@, vault@) == Some(Err::<Seq<char>, Seq<char>>(not_configured_text())));
                }
                return Err("A required secret is not configured. Check skill configuration and store the needed secret with store_secret.".to_owned());
            },
        };
        let mut next = sub_chars(result.as_slice(), 0, start);
        append_str(&mut next, value.as_str());
        let after = sub_chars(result.as_slice(), start + end + 2, rlen);
        append_chars(&mut next, after.as_slice());
        proof {
            assert(next@ =~= result@.take(start as int) + value@ + result@.skip(start + end + 2));
            assert(secret_step(result@, vault@) == Some(Ok::<Seq<char>, Seq<char>>(next@)));
            k = (k - 1) as nat;
        }
        result = next;
    }
    let filled = fill_placeholders(result.as_slice(), params.entries.as_slice());
    Ok(string_of(filled.as_slice()))
}

// ------------------------------------------------------------ URL guard

/// The host of a parsed URL.
#[derive(Debug)]
pub enum UrlHost {
    NoHost,
    /// The four octets and the address as text.
    Ipv4(Vec<u8>, String),
    /// The eight segments and the address as text.
    Ipv6(Vec<u16>, String),
    Domain(String),
}

/// The parts of a parsed URL that the guard reads.
#[derive(Debug)]
pub struct UrlParts {
    pub scheme: String,
    pub host_str: Option<String>,
    pub host: UrlHost,
}

/// Scheme, host text, host kind (0 none, 1 IPv4, 2 IPv6, 3 domain), the
/// address's numbers, and the address or domain text.
pub open spec fn url_parts_view(p: UrlParts) -> (Seq<char>, Option<Seq<char>>, int, Seq<int>, Seq<char>) {
    let hs = match p.host_str {
        Some(h) => Some(h@),
        None => None,
    };
    match p.host {
        UrlHost::NoHost => (p.scheme@, hs, 0, Seq::empty(), Seq::empty()),
        UrlHost::Ipv4(o, t) => (p.scheme@, hs, 1, o@.map_values(|x: u8| x as int), t@),
        UrlHost::Ipv6(sg, t) => (p.scheme@, hs, 2, sg@.map_values(|x: u16| x as int), t@),
        UrlHost::Domain(d) => (p.scheme@, hs, 3, Seq::empty(), d@),
    }
}

/// What `url::Url::parse` gives for a text: the URL's parts, or the parse
/// error's text.
pub uninterp spec fn parsed_url(s: Seq<char>) -> Result<(Seq<char>, Option<Seq<char>>, int, Seq<int>, Seq<char>), Seq<char>>;

/// A successful parse, by view.
pub open spec fn parsed_ok(p: UrlParts) -> Result<(Seq<char>, Option<Seq<char>>, int, Seq<int>, Seq<char>), Seq<char>> {
    Ok(url_parts_view(p))
}

/// A failed parse, by view.
pub open spec fn parsed_err(e: Seq<char>) -> Result<(Seq<char>, Option<Seq<char>>, int, Seq<int>, Seq<char>), Seq<char>> {
    Err(e)
}

/// Calls `url::Url::parse` and reads `scheme`, `host_str` and `host`
/// (`Display` of the addresses, `to_string` of the error). The contract names
/// the result `parsed_url(s@)`; it also states that an IPv4 host has four
/// octets and an IPv6 host eight segments, as the address types hold.
#[verifier::external_body]
fn parse_url(s: &str) -> (r: Result<UrlParts, String>)
    ensures
        r matches Ok(p) ==> parsed_url(s@) == parsed_ok(p),
        r matches Err(e) ==> parsed_url(s@) == parsed_err(e@),
        r matches Ok(p) ==> (p.host matches UrlHost::Ipv4(o, _) ==> o@.len() == 4),
        r matches Ok(p) ==> (p.host matches UrlHost::Ipv6(sg, _) ==> sg@.len() == 8),
{
    match url::Url::parse(s) {
        Ok(u) => Ok(UrlParts {
            scheme: u.scheme().to_string(),
            host_str: u.host_str().map(str::to_string),
            host: match u.host() {
                None => UrlHost::NoHost,
                Some(url::Host::Ipv4(ip)) => UrlHost::Ipv4(ip.octets().to_vec(), ip.to_string()),
                Some(url::Host::Ipv6(ip)) => UrlHost::Ipv6(ip.segments().to_vec(), ip.to_string()),
                Some(url::Host::Domain(d)) => UrlHost::Domain(d.to_string()),
            },
        }),
        Err(e) => Err(e.to_string()),
    }
}

/// A private, loopback, link-local or unspecified IPv4 address.
pub open spec fn private_v4(o: Seq<int>) -> bool {
    o[0] == 127 || o[0] == 10 || (o[0] == 172 && 16 <= o[1] <= 31) || (o[0] == 192 && o[1] == 168)
        || (o[0] == 169 && o[1] == 254) || o[0] == 0
}

/// A loopback, unspecified, unique-local (fc00::/7) or link-local
/// (fe80::/10) IPv6 address.
pub open spec fn private_v6(sg: Seq<int>) -> bool {
    (sg[0] == 0 && sg[1] == 0 && sg[2] == 0 && sg[3] == 0 && sg[4] == 0 && sg[5] == 0 && sg[6] == 0 && (sg[7] == 1 || sg[7] == 0))
        || (0xfc00 <= sg[0] <= 0xfdff) || (0xfe80 <= sg[0] <= 0xfebf)
}

/// Hosts that are always refused.
pub open spec fn blocked_hosts() -> Seq<Seq<char>> {
    seq!["metadata.google.internal"@, "metadata.google.com"@, "169.254.169.254"@]
}

/// The refusal of a parsed URL, if any: not HTTPS; no host; a blocked host
/// (compared lower-cased); a private IP; a local or internal domain.
pub open spec fn url_refusal(p: (Seq<char>, Option<Seq<char>>, int, Seq<int>, Seq<char>)) -> Option<Seq<char>> {
    let (scheme, host_str, kind, nums, text) = p;
    if scheme != "https"@ {
        Some("Only HTTPS allowed for dynamic skills, got: "@ + scheme)
    } else if host_str is None {
        Some("URL must have a host"@)
    } else if blocked_hosts().contains(lowercase(host_str->0)) {
        Some("Host '"@ + host_str->0 + "' is blocked (SSRF protection)"@)
    } else if (kind == 1 && private_v4(nums)) || (kind == 2 && private_v6(nums)) {
        Some("Private/internal IP '"@ + text + "' is blocked (SSRF protection)"@)
    } else if kind == 3 && (lowercase(text) == "localhost"@ || lowercase(text) == "0.0.0.0"@
        || has_suffix(lowercase(text), ".local"@) || has_suffix(lowercase(text), ".internal"@)) {
        Some("Local/internal domain '"@ + text + "' is blocked (SSRF protection)"@)
    } else if kind == 0 {
        Some("URL must have a host"@)
    } else {
        None
    }
}

fn is_private_v4(o: &Vec<u8>) -> (r: bool)
    requires
        o@.len() == 4,
    ensures
        r == private_v4(o@.map_values(|x: u8| x as int)),
{
    let a = o[0];
    let b = o[1];
    a == 127 || a == 10 || (a == 172 && 16 <= b && b <= 31) || (a == 192 && b == 168) || (a == 169 && b == 254) || a == 0
}

fn is_private_v6(sg: &Vec<u16>) -> (r: bool)
    requires
        sg@.len() == 8,
    ensures
        r == private_v6(sg@.map_values(|x: u16| x as int)),
{
    (sg[0] == 0 && sg[1] == 0 && sg[2] == 0 && sg[3] == 0 && sg[4] == 0 && sg[5] == 0 && sg[6] == 0 && (sg[7] == 1 || sg[7] == 0))
        || (0xfc00 <= sg[0] && sg[0] <= 0xfdff) || (0xfe80 <= sg[0] && sg[0] <= 0xfebf)
}

/// Check a parsed URL against the guard (see `url_refusal`); a parse
/// error gives `Invalid URL: <error>`.
#[verifier::loop_isolation(false)]
pub fn check_parsed_url(parsed: Result<UrlParts, String>) -> (r: Result<(), String>)
    requires
        parsed matches Ok(p) ==> (p.host matches UrlHost::Ipv4(o, _) ==> o@.len() == 4),
        parsed matches Ok(p) ==> (p.host matches UrlHost::Ipv6(sg, _) ==> sg@.len() == 8),
    ensures
        parsed matches Err(e) ==> r matches Err(m) && m@ == "Invalid URL: "@ + e@,
        parsed matches Ok(p) ==> (url_refusal(url_parts_view(p)) matches Some(m) ==> r matches Err(e) && e@ == m),
        parsed matches Ok(p) ==> (url_refusal(url_parts_view(p)) is None ==> r is Ok),
{
    proof {
        reveal_strlit("https");
        reveal_strlit("");
        reveal_strlit("metadata.google.internal");
        reveal_strlit("metadata.google.com");
        reveal_strlit("169.254.169.254");
    }
    let p = match parsed {
        Ok(p) => p,
        Err(e) => {
            return Err(concat3("Invalid URL: ", e.as_str(), ""));
        },
    };
    if !str_eq(p.scheme.as_str(), "https") {
        return Err(concat3("Only HTTPS allowed for dynamic skills, got: ", p.scheme.as_str(), ""));
    }
    let host = match &p.host_str {
        Some(h) => h,
        None => {
            return Err("URL must have a host".to_owned());
        },
    };
    let host_lower = to_lowercase(host.as_str());
    let blocked: [&str; 3] = ["metadata.google.internal", "metadata.google.com", "169.254.169.254"];
    let mut k: usize = 0;
    while k < 3
        invariant
            k <= 3,
            blocked@.map_values(|b: &str| b@) == blocked_hosts(),
            forall|j: int| 0 <= j < k ==> blocked_hosts()[j] != host_lower@,
        decreases 3 - k,
    {
        if str_eq(host_lower.as_str(), blocked[k]) {
            assert(blocked_hosts()[k as int] == host_lower@);
            return Err(concat3("Host '", host.as_str(), "' is blocked (SSRF protection)"));
        }
        k += 1;
    }
    match &p.host {
        UrlHost::Ipv4(o, text) => {
            if is_private_v4(o) {
                return Err(concat3("Private/internal IP '", text.as_str(), "' is blocked (SSRF protection)"));
            }
        },
        UrlHost::Ipv6(sg, text) => {
            if is_private_v6(sg) {
                return Err(concat3("Private/internal IP '", text.as_str(), "' is blocked (SSRF protection)"));
            }
        },
        UrlHost::Domain(d) => {
            let dl = lower_chars(d.as_str());
            if str_eq(string_of(dl.as_slice()).as_str(), "localhost") || str_eq(string_of(dl.as_slice()).as_str(), "0.0.0.0")
                || ends_with_str(dl.as_slice(), ".local") || ends_with_str(dl.as_slice(), ".internal") {
                return Err(concat3("Local/internal domain '", d.as_str(), "' is blocked (SSRF protection)"));
            }
        },
        UrlHost::NoHost => {
            return Err("URL must have a host".to_owned());
        },
    }
    Ok(())
}

/// Guard a rendered URL against requests to internal hosts: it must parse,
/// use HTTPS and name a public host.
pub fn validate_url_ssrf(url: &str) -> (r: Result<(), String>)
    ensures
        parsed_url(url@) matches Err(e) ==> r matches Err(m) && m@ == "Invalid URL: "@ + e,
        parsed_url(url@) matches Ok(p) ==> (url_refusal(p) matches Some(m) ==> r matches Err(e) && e@ == m),
        parsed_url(url@) matches Ok(p) ==> (url_refusal(p) is None ==> r is Ok),
{
    let parsed = parse_url(url);
    check_parsed_url(parsed)
}

// ------------------------------------------------------------ requests

/// HTTP method of a prepared request.
#[derive(Debug, Clone, Copy, PartialEq, Eq, Structural)]
pub enum HttpMethod {
    Get,
    Post,
    Put,
    Delete,
}

/// A request ready to send: method, URL, header names with rendered values,
/// and the rendered JSON body, if any.
#[derive(Debug)]
pub struct PreparedRequest {
    pub method: HttpMethod,
    pub url: String,
    pub headers: Vec<(String, String)>,
    pub body: Option<String>,
}

/// The URL template renders to a URL that parses and that the request
/// guard lets through.
pub open spec fn url_allowed(url_template: Seq<char>, params: Seq<(String, ArgValue)>, vault: Seq<(String, String)>) -> bool {
    &&& render_spec(url_template, params, vault) is Ok
    &&& parsed_url(render_spec(url_template, params, vault)->Ok_0) is Ok
    &&& url_refusal(parsed_url(render_spec(url_template, params, vault)->Ok_0)->Ok_0) is None
}

/// Render the header values in order; the first failure is returned.
pub open spec fn render_headers(headers: Seq<(String, String)>, params: Seq<(String, ArgValue)>, vault: Seq<(String, String)>) -> Result<Seq<(Seq<char>, Seq<char>)>, Seq<char>>
    decreases headers.len(),
{
    if headers.len() == 0 {
        Ok(Seq::empty())
    } else {
        match render_headers(headers.drop_last(), params, vault) {
            Err(e) => Err(e),
            Ok(prev) => match render_spec(headers.last().1@, params, vault) {
                Err(e) => Err(e),
                Ok(v) => Ok(prev.push((headers.last().0@, v))),
            },
        }
    }
}

/// The method a request uses, by the upper-cased method text.
pub open spec fn method_of(m: Seq<char>) -> Option<HttpMethod> {
    if uppercase(m) == "GET"@ {
        Some(HttpMethod::Get)
    } else if uppercase(m) == "POST"@ {
        Some(HttpMethod::Post)
    } else if uppercase(m) == "PUT"@ {
        Some(HttpMethod::Put)
    } else if uppercase(m) == "DELETE"@ {
        Some(HttpMethod::Delete)
    } else {
        None
    }
}

/// Prepare the request of a tool call: render the URL and guard it, render
/// the header values and the body, and pick the method. Each failure is a
/// `ToolFailed` error with the failing step's text, in that order.
#[verifier::loop_isolation(false)]
#[verifier::rlimit(40)]
pub fn prepare_request(tool: &DynamicToolConfig, params: &ToolArgs, vault: &[(String, String)]) -> (r: Result<PreparedRequest, SkillError>)
    requires
        secrets_terminate(tool.url_template@, vault@),
        forall|k: int|
            0 <= k < tool.headers@.len() && url_allowed(tool.url_template@, params.entries@, vault@)
                && render_headers(tool.headers@.take(k), params.entries@, vault@) is Ok
                ==> secrets_terminate((#[trigger] tool.headers@[k]).1@, vault@),
        (tool.body_template is Some && url_allowed(tool.url_template@, params.entries@, vault@)
            && render_headers(tool.headers@, params.entries@, vault@) is Ok) ==> secrets_terminate(tool.body_template->0@, vault@),
    ensures
        render_spec(tool.url_template@, params.entries@, vault@) matches Err(e) ==> r matches Err(SkillError::ToolFailed(m)) && m@ == e,
        render_spec(tool.url_template@, params.entries@, vault@) matches Ok(u) ==> (
            parsed_url(u) matches Err(e) ==> r matches Err(SkillError::ToolFailed(m)) && m@ == "Invalid URL: "@ + e),
        render_spec(tool.url_template@, params.entries@, vault@) matches Ok(u) ==> (
            parsed_url(u) matches Ok(p) ==> (url_refusal(p) matches Some(e) ==> r matches Err(SkillError::ToolFailed(m)) && m@ == e)),
        r matches Ok(req) ==> {
            &&& render_spec(tool.url_template@, params.entries@, vault@) == Ok::<Seq<char>, Seq<char>>(req.url@)
            &&& parsed_url(req.url@) is Ok && url_refusal(parsed_url(req.url@)->Ok_0) is None
            &&& render_headers(tool.headers@, params.entries@, vault@) == Ok::<Seq<(Seq<char>, Seq<char>)>, Seq<char>>(req.headers@.map_values(|h: (String, String)| (h.0@, h.1@)))
            &&& (match tool.body_template {
                Some(b) => req.body matches Some(rb) && render_spec(b@, params.entries@, vault@) == Ok::<Seq<char>, Seq<char>>(rb@),
                None => req.body is None,
            })
            &&& method_of(tool.method@) == Some(req.method)
        },
        r is Err ==> (r matches Err(SkillError::ToolFailed(_))),
        (render_spec(tool.url_template@, params.entries@, vault@) is Ok
            && parsed_url(render_spec(tool.url_template@, params.entries@, vault@)->Ok_0) is Ok
            && url_refusal(parsed_url(render_spec(tool.url_template@, params.entries@, vault@)->Ok_0)->Ok_0) is None
            && render_headers(tool.headers@, params.entries@, vault@) is Ok
            && (tool.body_template matches Some(b) ==> render_spec(b@, params.entries@, vault@) is Ok)
            && method_of(tool.method@) is Some) ==> r is Ok,
{
    let url = match render_template(tool.url_template.as_str(), params, vault) {
        Ok(u) => u,
        Err(e) => {
            return Err(SkillError::ToolFailed(e));
        },
    };
    match validate_url_ssrf(url.as_str()) {
        Ok(()) => {},
        Err(e) => {
            return Err(SkillError::ToolFailed(e));
        },
    }
    let mut headers: Vec<(String, String)> = Vec::new();
    let mut i: usize = 0;
    assert(tool.headers@.take(0) =~= Seq::<(String, String)>::empty());
    assert(headers@.map_values(|h: (String, String)| (h.0@, h.1@)) =~= Seq::<(Seq<char>, Seq<char>)>::empty());
    while i < tool.headers.len()
        invariant
            i <= tool.headers@.len(),
            url_allowed(tool.url_template@, params.entries@, vault@),
            render_headers(tool.headers@.take(i as int), params.entries@, vault@) == Ok::<Seq<(Seq<char>, Seq<char>)>, Seq<char>>(headers@.map_values(|h: (String, String)| (h.0@, h.1@))),
        decreases tool.headers@.len() - i,
    {
        proof {
            assert(tool.headers@.take(i + 1).drop_last() =~= tool.headers@.take(i as int));
        }
        proof {
            assert(secrets_terminate(tool.headers@[i as int].1@, vault@));
        }
        match render_template(tool.headers[i].1.as_str(), params, vault) {
            Ok(v) => {
                headers.push((tool.headers[i].0.clone(), v));
                proof {
                    assert(headers@.map_values(|h: (String, String)| (h.0@, h.1@)) =~= render_headers(tool.headers@.take(i + 1), params.entries@, vault@)->Ok_0);
                }
            },
            Err(e) => {
                proof {
                    lemma_render_headers_prefix(tool.headers@, i + 1, params.entries@, vault@);
                }
                return Err(SkillError::ToolFailed(e));
            },
        }
        i += 1;
    }
    assert(tool.headers@.take(tool.headers@.len() as int) =~= tool.headers@);
    let body = match &tool.body_template {
        Some(b) => match render_template(b.as_str(), params, vault) {
            Ok(rb) => Some(rb),
            Err(e) => {
                return Err(SkillError::ToolFailed(e));
            },
        },
        None => None,
    };
    proof {
        reveal_strlit("GET");
        reveal_strlit("POST");
        reveal_strlit("PUT");
        reveal_strlit("DELETE");
    }
    let up = to_uppercase(tool.method.as_str());
    let method = if str_eq(up.as_str(), "GET") {
        HttpMethod::Get
    } else if str_eq(up.as_str(), "POST") {
        HttpMethod::Post
    } else if str_eq(up.as_str(), "PUT") {
        HttpMethod::Put
    } else if str_eq(up.as_str(), "DELETE") {
        HttpMethod::Delete
    } else {
        return Err(SkillError::ToolFailed(concat3("Unsupported method: ", up.as_str(), "")));
    };
    Ok(PreparedRequest { method, url, headers, body })
}

/// A header that fails to render fails all later ones too.
pub proof fn lemma_render_headers_prefix(headers: Seq<(String, String)>, n: int, params: Seq<(String, ArgValue)>, vault: Seq<(String, String)>)
    requires
        0 <= n <= headers.len(),
        render_headers(headers.take(n), params, vault) is Err,
    ensures
        render_headers(headers, params, vault) == render_headers(headers.take(n), params, vault),
    decreases headers.len() - n,
{
    if n < headers.len() {
        assert(headers.take(n + 1).drop_last() =~= headers.take(n));
        lemma_render_headers_prefix(headers, n + 1, params, vault);
    } else {
        assert(headers.take(n) =~= headers);
    }
}

/// The tool of a dynamic skill named `name`, or `Unknown tool '<name>' in
/// dynamic skill`.
pub fn find_dynamic_tool(config: &DynamicSkillConfig, name: &str) -> (r: Result<usize, SkillError>)
    ensures
        r matches Ok(i) ==> i < config.tools@.len() && config.tools@[i as int].name@ == name@
            && forall|j: int| 0 <= j < i ==> config.tools@[j].name@ != name@,
        r is Err ==> forall|j: int| 0 <= j < config.tools@.len() ==> config.tools@[j].name@ != name@,
        r is Err ==> failure_text(r) == Some("Unknown tool '"@ + name@ + "' in dynamic skill"@),
{
    let mut i: usize = 0;
    while i < config.tools.len()
        invariant
            i <= config.tools@.len(),
            forall|j: int| 0 <= j < i ==> config.tools@[j].name@ != name@,
        decreases config.tools@.len() - i,
    {
        if str_eq(config.tools[i].name.as_str(), name) {
            return Ok(i);
        }
        i += 1;
    }
    Err(SkillError::ToolFailed(concat3("Unknown tool '", name, "' in dynamic skill")))
}

/// Whether a dynamic tool runs autonomously and needs confirmation: reads
/// (GET or HEAD, in any case) run autonomously without confirmation;
/// anything else needs confirmation.
pub fn dynamic_tool_flags(method: &str) -> (r: (bool, bool))
    ensures
        (uppercase(method@) == "GET"@ || uppercase(method@) == "HEAD"@) ==> r == (true, false),
        !(uppercase(method@) == "GET"@ || uppercase(method@) == "HEAD"@) ==> r == (false, true),
{
    let up = to_uppercase(method);
    if str_eq(up.as_str(), "GET") || str_eq(up.as_str(), "HEAD") {
        (true, false)
    } else {
        (false, true)
    }
}

/// The manifest of a dynamic skill, after validating its config: one
/// required secret per referenced secret name, full network permission.
pub fn dynamic_manifest(config: &DynamicSkillConfig) -> (r: Result<SkillManifest, String>)
    ensures
        config_error(*config) matches Some(m) ==> r matches Err(e) && e@ == m,
        config_error(*config) is None ==> r is Ok,
        r matches Ok(m) ==> {
            &&& m.id.0@ == config.id@
            &&& m.name@ == config.name@
            &&& m.version@ == config.version@
            &&& m.description@ == config.description@
            &&& m.category@ == config.category@
            &&& m.license is None
            &&& m.runtime@ == "Dynamic"@
            &&& m.permissions@ == seq![Permission::Network(NetworkPermission::Full)]
            &&& strictly_sorted(m.secrets@.map_values(|d: SecretDescriptor| d.name@))
            &&& m.secrets@.map_values(|d: SecretDescriptor| d.name@).to_set() == tools_refs(config.tools@).to_set()
            &&& forall|k: int| 0 <= k < m.secrets@.len() ==> (#[trigger] m.secrets@[k]).required
                && m.secrets@[k].description@ == "API key for dynamic skill '"@ + config.name@ + "'"@
        },
{
    match validate_config(config) {
        Ok(()) => {},
        Err(e) => {
            return Err(e);
        },
    }
    let keys = extract_secret_keys(config);
    let mut secrets: Vec<SecretDescriptor> = Vec::new();
    let mut i: usize = 0;
    while i < keys.len()
        invariant
            i <= keys@.len(),
            secrets@.len() == i,
            forall|k: int| 0 <= k < i ==> (#[trigger] secrets@[k]).name@ == keys@[k]@ && secrets@[k].required
                && secrets@[k].description@ == "API key for dynamic skill '"@ + config.name@ + "'"@,
        decreases keys@.len() - i,
    {
        secrets.push(SecretDescriptor {
            name: keys[i].clone(),
            description: concat3("API key for dynamic skill '", config.name.as_str(), "'"),
            required: true,
        });
        i += 1;
    }
    assert(secrets@.map_values(|d: SecretDescriptor| d.name@) =~= strings_view(keys@));
    let mut permissions: Vec<Permission> = Vec::new();
    permissions.push(Permission::Network(NetworkPermission::Full));
    assert(permissions@ =~= seq![Permission::Network(NetworkPermission::Full)]);
    Ok(SkillManifest {
        id: SkillId(config.id.clone()),
        name: config.name.clone(),
        version: config.version.clone(),
        description: config.description.clone(),
        license: None,
        category: config.category.clone(),
        keywords: vec!["dynamic".to_owned(), "api".to_owned()],
        runtime: "Dynamic".to_owned(),
        min_abigail_version: "0.0.1".to_owned(),
        platforms: vec!["All".to_owned()],
        capabilities: Vec::new(),
        permissions,
        secrets,
        config_defaults: std::collections::HashMap::new(),
    })
}


/// Only HTTPS URLs with a host pass the request guard; loopback,
/// private-range and link-local IPv4 hosts never do.
pub proof fn lemma_url_guard(p: (Seq<char>, Option<Seq<char>>, int, Seq<int>, Seq<char>))
    ensures
        p.0 != "https"@ ==> url_refusal(p) is Some,
        p.1 is None ==> url_refusal(p) is Some,
        url_refusal(p) is None ==> p.0 == "https"@ && p.1 is Some && p.2 != 0,
        (p.2 == 1 && p.3.len() == 4 && (p.3[0] == 127 || p.3[0] == 10 || (p.3[0] == 192 && p.3[1] == 168)
            || (p.3[0] == 169 && p.3[1] == 254))) ==> url_refusal(p) is Some,
{
}

} // verus!
