//! The built-in management skills (hive, job queue, backups): their
//! manifests, the tools they offer, and how a tool call is turned into the
//! operation to perform, which for the hive and the backups is then asked
//! of a store the host implements.
use vstd::prelude::*;
use crate::manifest::{SkillId, SkillManifest};
use crate::skill::SkillError;
use crate::text::{str_eq, strings_view};
use crate::tool_args::{
    lenient_string_arg, missing, missing_text, string_arg, strings_arg, tool_spec, tool_summary, tool_texts,
    uint_arg, unknown_tool, unknown_tool_text, arg_of, ArgValue, ToolArgs, ToolSpec,
};

verus! {

/// A manifest of a built-in skill: version 0.1.0, MIT license, category
/// `System`, native runtime on all platforms, nothing else declared.
pub fn builtin_manifest(id: &str, name: &str, description: &str, keywords: &[&str]) -> (m: SkillManifest)
    ensures
        m.id.0@ == id@,
        m.name@ == name@,
        m.description@ == description@,
        m.version@ == "0.1.0"@,
        m.category@ == "System"@,
        m.runtime@ == "Native"@,
        m.license matches Some(l) && l@ == "MIT"@,
        strings_view(m.keywords@) == keywords@.map_values(|k: &str| k@),
        m.permissions@.len() == 0,
        m.secrets@.len() == 0,
        m.capabilities@.len() == 0,
{
    let mut kws: Vec<String> = Vec::new();
    let mut i: usize = 0;
    while i < keywords.len()
        invariant
            i <= keywords@.len(),
            kws@.len() == i,
            forall|j: int| 0 <= j < i ==> (#[trigger] kws@[j])@ == keywords@[j]@,
        decreases keywords@.len() - i,
    {
        kws.push(keywords[i].to_owned());
        i += 1;
    }
    assert(strings_view(kws@) =~= keywords@.map_values(|k: &str| k@));
    SkillManifest {
        id: SkillId(id.to_owned()),
        name: name.to_owned(),
        version: "0.1.0".to_owned(),
        description: description.to_owned(),
        license: Some("MIT".to_owned()),
        category: "System".to_owned(),
        keywords: kws,
        runtime: "Native".to_owned(),
        min_abigail_version: "0.1.0".to_owned(),
        platforms: vec!["All".to_owned()],
        capabilities: Vec::new(),
        permissions: Vec::new(),
        secrets: Vec::new(),
        config_defaults: std::collections::HashMap::new(),
    }
}

// ---------------------------------------------------------------- hive

/// An agent of the hive.
#[derive(Debug)]
pub struct HiveAgentInfo {
    pub id: String,
    pub name: String,
}

/// The hive operation a tool call asks for.
#[derive(Debug)]
pub enum HiveCommand {
    ListEntities,
    CreateEntity { name: String },
    SwitchEntity { id: String },
    GetConfig { key: String },
    /// The new value is the call's `value` argument.
    SetConfig { key: String },
    StoreSecret { key: String, value: String },
    ListSecrets,
}

/// Manifest of the hive management skill.
pub fn hive_manifest() -> (m: SkillManifest)
    ensures
        m.id.0@ == "builtin.hive_management"@,
        m.name@ == "Hive Management"@,
{
    let kws: [&str; 3] = ["hive", "identity", "config"];
    builtin_manifest("builtin.hive_management", "Hive Management", "Manage Sovereign Entities, agents, and Hive configuration.", &kws)
}

/// The hive tools: names and whether they need confirmation.
pub open spec fn hive_tools() -> Seq<(Seq<char>, bool)> {
    seq![
        ("list_entities"@, false),
        ("create_entity"@, true),
        ("switch_entity"@, true),
        ("get_config"@, false),
        ("set_config"@, true),
        ("store_secret"@, true),
        ("list_secrets"@, false),
    ]
}

/// The tools of the hive management skill in full: name, description,
/// parameter schema, result schema (JSON texts) and whether a call needs
/// confirmation.
pub open spec fn hive_tool_texts() -> Seq<(Seq<char>, Seq<char>, Seq<char>, Seq<char>, bool)> {
    seq![
        ("list_entities"@, "List all Sovereign Entities (agents) registered in this Hive."@, "{}"@, "{\"type\":\"array\",\"items\":{\"type\":\"object\",\"properties\":{\"id\":{\"type\":\"string\"},\"name\":{\"type\":\"string\"}}}}"@, false),
        ("create_entity"@, "Birth a new Entity with the given name."@, "{\"type\":\"object\",\"properties\":{\"name\":{\"type\":\"string\",\"description\":\"The name of the new entity\"}},\"required\":[\"name\"]}"@, "{\"type\":\"string\",\"description\":\"The ID of the new entity\"}"@, true),
        ("switch_entity"@, "Switch the active consciousness to a different Entity."@, "{\"type\":\"object\",\"properties\":{\"id\":{\"type\":\"string\",\"description\":\"The ID of the entity to switch to\"}},\"required\":[\"id\"]}"@, "{\"type\":\"boolean\"}"@, true),
        ("get_config"@, "Read a non-sensitive configuration value from the Hive."@, "{\"type\":\"object\",\"properties\":{\"key\":{\"type\":\"string\",\"description\":\"The configuration key (e.g., 'primary_color', 'agent_name')\"}},\"required\":[\"key\"]}"@, "{\"type\":\"any\"}"@, false),
        ("set_config"@, "Update a non-sensitive configuration value in the Hive."@, "{\"type\":\"object\",\"properties\":{\"key\":{\"type\":\"string\",\"description\":\"The configuration key\"},\"value\":{\"type\":\"any\",\"description\":\"The new value\"}},\"required\":[\"key\",\"value\"]}"@, "{\"type\":\"boolean\"}"@, true),
        ("store_secret"@, "Store an operational secret (e.g. API key, password) in the Skills Vault. The value is write-only and cannot be read back by the Entity directly."@, "{\"type\":\"object\",\"properties\":{\"key\":{\"type\":\"string\",\"description\":\"The secret identifier (e.g., 'proton_mail_password')\"},\"value\":{\"type\":\"string\",\"description\":\"The secret value to store\"}},\"required\":[\"key\",\"value\"]}"@, "{\"type\":\"boolean\"}"@, true),
        ("list_secrets"@, "List the names of all secrets currently stored in the Skills Vault."@, "{}"@, "{\"type\":\"array\",\"items\":{\"type\":\"string\"}}"@, false),
    ]
}

/// The tools of the hive management skill.
pub fn hive_tool_specs() -> (v: Vec<ToolSpec>)
    ensures
        tool_summary(v@) == hive_tools(),
        tool_texts(v@) == hive_tool_texts(),
{
    let mut v: Vec<ToolSpec> = Vec::new();
    v.push(tool_spec("list_entities", "List all Sovereign Entities (agents) registered in this Hive.",
        "{}",
        "{\"type\":\"array\",\"items\":{\"type\":\"object\",\"properties\":{\"id\":{\"type\":\"string\"},\"name\":{\"type\":\"string\"}}}}",
        false));
    v.push(tool_spec("create_entity", "Birth a new Entity with the given name.",
        "{\"type\":\"object\",\"properties\":{\"name\":{\"type\":\"string\",\"description\":\"The name of the new entity\"}},\"required\":[\"name\"]}",
        "{\"type\":\"string\",\"description\":\"The ID of the new entity\"}",
        true));
    v.push(tool_spec("switch_entity", "Switch the active consciousness to a different Entity.",
        "{\"type\":\"object\",\"properties\":{\"id\":{\"type\":\"string\",\"description\":\"The ID of the entity to switch to\"}},\"required\":[\"id\"]}",
        "{\"type\":\"boolean\"}",
        true));
    v.push(tool_spec("get_config", "Read a non-sensitive configuration value from the Hive.",
        "{\"type\":\"object\",\"properties\":{\"key\":{\"type\":\"string\",\"description\":\"The configuration key (e.g., 'primary_color', 'agent_name')\"}},\"required\":[\"key\"]}",
        "{\"type\":\"any\"}",
        false));
    v.push(tool_spec("set_config", "Update a non-sensitive configuration value in the Hive.",
        "{\"type\":\"object\",\"properties\":{\"key\":{\"type\":\"string\",\"description\":\"The configuration key\"},\"value\":{\"type\":\"any\",\"description\":\"The new value\"}},\"required\":[\"key\",\"value\"]}",
        "{\"type\":\"boolean\"}",
        true));
    v.push(tool_spec("store_secret", "Store an operational secret (e.g. API key, password) in the Skills Vault. The value is write-only and cannot be read back by the Entity directly.",
        "{\"type\":\"object\",\"properties\":{\"key\":{\"type\":\"string\",\"description\":\"The secret identifier (e.g., 'proton_mail_password')\"},\"value\":{\"type\":\"string\",\"description\":\"The secret value to store\"}},\"required\":[\"key\",\"value\"]}",
        "{\"type\":\"boolean\"}",
        true));
    v.push(tool_spec("list_secrets", "List the names of all secrets currently stored in the Skills Vault.",
        "{}",
        "{\"type\":\"array\",\"items\":{\"type\":\"string\"}}",
        false));
    proof {
        reveal_strlit("list_entities");
        reveal_strlit("create_entity");
        reveal_strlit("switch_entity");
        reveal_strlit("get_config");
        reveal_strlit("set_config");
        reveal_strlit("store_secret");
        reveal_strlit("list_secrets");
    }
    assert(tool_summary(v@) =~= hive_tools());
    assert(tool_texts(v@) =~= hive_tool_texts());
    v
}

/// The error text of a failed tool call, or the operation of a good one.
pub open spec fn failure_text<T>(r: Result<T, SkillError>) -> Option<Seq<char>> {
    match r {
        Err(SkillError::ToolFailed(m)) => Some(m@),
        _ => None,
    }
}

/// Tag and arguments of a hive operation.
pub open spec fn hive_view(c: HiveCommand) -> (int, Seq<char>, Seq<char>) {
    match c {
        HiveCommand::ListEntities => (0, Seq::empty(), Seq::empty()),
        HiveCommand::CreateEntity { name } => (1, name@, Seq::empty()),
        HiveCommand::SwitchEntity { id } => (2, id@, Seq::empty()),
        HiveCommand::GetConfig { key } => (3, key@, Seq::empty()),
        HiveCommand::SetConfig { key } => (4, key@, Seq::empty()),
        HiveCommand::StoreSecret { key, value } => (5, key@, value@),
        HiveCommand::ListSecrets => (6, Seq::empty(), Seq::empty()),
    }
}

/// The outcome of a hive tool call, by view.
pub open spec fn hive_outcome(r: Result<HiveCommand, SkillError>) -> Result<(int, Seq<char>, Seq<char>), Option<Seq<char>>> {
    match r {
        Ok(c) => Ok(hive_view(c)),
        Err(_) => Err(failure_text(r)),
    }
}

/// Which hive operation a call of `tool` with `args` asks for. Arguments
/// are read strictly as JSON strings (`set_config`'s `value` may be any
/// value); a missing one gives `Missing '<name>'`, an unknown tool gives
/// `Unknown tool: <tool>`.
pub open spec fn hive_expected(tool: Seq<char>, args: Seq<(String, crate::tool_args::ArgValue)>) -> Result<(int, Seq<char>, Seq<char>), Option<Seq<char>>> {
    if tool == "list_entities"@ {
        Ok((0, Seq::empty(), Seq::empty()))
    } else if tool == "create_entity"@ {
        match string_arg(args, "name"@) {
            Some(n) => Ok((1, n, Seq::empty())),
            None => Err(Some(missing_text("name"@))),
        }
    } else if tool == "switch_entity"@ {
        match string_arg(args, "id"@) {
            Some(n) => Ok((2, n, Seq::empty())),
            None => Err(Some(missing_text("id"@))),
        }
    } else if tool == "get_config"@ {
        match string_arg(args, "key"@) {
            Some(n) => Ok((3, n, Seq::empty())),
            None => Err(Some(missing_text("key"@))),
        }
    } else if tool == "set_config"@ {
        match string_arg(args, "key"@) {
            Some(n) => if arg_of(args, "value"@) is Some {
                Ok((4, n, Seq::empty()))
            } else {
                Err(Some(missing_text("value"@)))
            },
            None => Err(Some(missing_text("key"@))),
        }
    } else if tool == "store_secret"@ {
        match (string_arg(args, "key"@), string_arg(args, "value"@)) {
            (Some(k), Some(v)) => Ok((5, k, v)),
            (None, _) => Err(Some(missing_text("key"@))),
            (Some(_), None) => Err(Some(missing_text("value"@))),
        }
    } else if tool == "list_secrets"@ {
        Ok((6, Seq::empty(), Seq::empty()))
    } else {
        Err(Some(unknown_tool_text(tool)))
    }
}

fn required_str(args: &ToolArgs, name: &str) -> (r: Result<String, SkillError>)
    ensures
        string_arg(args.entries@, name@) matches Some(s) ==> r matches Ok(v) && v@ == s,
        string_arg(args.entries@, name@) is None ==> r is Err && failure_text(r) == Some(missing_text(name@)),
{
    match args.get_str(name) {
        Some(s) => Ok(s),
        None => Err(missing(name)),
    }
}

/// The hive operation a tool call asks for (see `hive_expected`).
pub fn hive_command(tool: &str, args: &ToolArgs) -> (r: Result<HiveCommand, SkillError>)
    ensures
        hive_outcome(r) == hive_expected(tool@, args.entries@),
{
    proof {
        reveal_strlit("list_entities");
        reveal_strlit("create_entity");
        reveal_strlit("switch_entity");
        reveal_strlit("get_config");
        reveal_strlit("set_config");
        reveal_strlit("store_secret");
        reveal_strlit("list_secrets");
    }
    if str_eq(tool, "list_entities") {
        Ok(HiveCommand::ListEntities)
    } else if str_eq(tool, "create_entity") {
        match required_str(args, "name") {
            Ok(name) => Ok(HiveCommand::CreateEntity { name }),
            Err(e) => Err(e),
        }
    } else if str_eq(tool, "switch_entity") {
        match required_str(args, "id") {
            Ok(id) => Ok(HiveCommand::SwitchEntity { id }),
            Err(e) => Err(e),
        }
    } else if str_eq(tool, "get_config") {
        match required_str(args, "key") {
            Ok(key) => Ok(HiveCommand::GetConfig { key }),
            Err(e) => Err(e),
        }
    } else if str_eq(tool, "set_config") {
        match required_str(args, "key") {
            Ok(key) => {
                if args.has("value") {
                    Ok(HiveCommand::SetConfig { key })
                } else {
                    Err(missing("value"))
                }
            },
            Err(e) => Err(e),
        }
    } else if str_eq(tool, "store_secret") {
        match required_str(args, "key") {
            Ok(key) => match required_str(args, "value") {
                Ok(value) => Ok(HiveCommand::StoreSecret { key, value }),
                Err(e) => Err(e),
            },
            Err(e) => Err(e),
        }
    } else if str_eq(tool, "list_secrets") {
        Ok(HiveCommand::ListSecrets)
    } else {
        Err(unknown_tool(tool))
    }
}

/// The hive the hive skill works on; the host implements it.
///
/// Each operation's answer is tied to its arguments through a predicate of
/// the implementation (`agents_listed`, `entity_created`, ...). By default
/// these hold of every answer, so a host that says nothing more owes
/// nothing; they let the skill's contract say which operation was asked,
/// with which arguments, and what came of its answer.
pub trait HiveOperations {
    /// `r` is this hive's answer to listing the entities.
    open spec fn agents_listed(&self, r: Result<Vec<HiveAgentInfo>, String>) -> bool {
        true
    }

    /// `r` is this hive's answer to loading the entity `agent_id`.
    open spec fn entity_loaded(&self, agent_id: Seq<char>, r: Result<(), String>) -> bool {
        true
    }

    /// `r` is this hive's answer to creating an entity named `name`.
    open spec fn entity_created(&self, name: Seq<char>, r: Result<String, String>) -> bool {
        true
    }

    /// `r` is this hive's answer to reading the config value `key`.
    open spec fn config_read(&self, key: Seq<char>, r: Result<ArgValue, String>) -> bool {
        true
    }

    /// `r` is this hive's answer to setting the config value `key` to `value`.
    open spec fn config_set(&self, key: Seq<char>, value: ArgValue, r: Result<(), String>) -> bool {
        true
    }

    /// `r` is this hive's answer to storing the secret `key` with `value`.
    open spec fn secret_stored(&self, key: Seq<char>, value: Seq<char>, r: Result<(), String>) -> bool {
        true
    }

    /// `r` is this hive's answer to listing the stored secrets' names.
    open spec fn secret_names_listed(&self, r: Result<Vec<String>, String>) -> bool {
        true
    }

    fn list_agents(&self) -> (r: Result<Vec<HiveAgentInfo>, String>)
        ensures
            self.agents_listed(r),
    ;

    fn load_agent(&self, agent_id: &str) -> (r: Result<(), String>)
        ensures
            self.entity_loaded(agent_id@, r),
    ;

    fn create_agent(&self, name: &str) -> (r: Result<String, String>)
        ensures
            self.entity_created(name@, r),
    ;

    fn get_active_agent_id(&self) -> Result<Option<String>, String>;

    /// A config value (the Superego's settings excluded).
    fn get_config_value(&self, key: &str) -> (r: Result<ArgValue, String>)
        ensures
            self.config_read(key@, r),
    ;

    fn set_config_value(&self, key: &str, value: &ArgValue) -> (r: Result<(), String>)
        ensures
            self.config_set(key@, *value, r),
    ;

    /// Store a secret in the skills vault.
    fn set_skill_secret(&self, key: &str, value: &str) -> (r: Result<(), String>)
        ensures
            self.secret_stored(key@, value@, r),
    ;

    fn get_skill_secret_names(&self) -> (r: Result<Vec<String>, String>)
        ensures
            self.secret_names_listed(r),
    ;
}

/// What a hive tool call gave back.
#[derive(Debug)]
pub enum HiveOutput {
    /// The entities.
    Agents(Vec<HiveAgentInfo>),
    /// The new entity's id.
    Created(String),
    /// The operation was done.
    Done,
    /// A config value.
    Config(ArgValue),
    /// The names of the stored secrets.
    SecretNames(Vec<String>),
}

/// Whether `r` is what the hive operation with view `(tag, a, b)` (see
/// `hive_view`) gives when the hive `ops` answers it: the operation asked
/// is the one of the tag, with `a` and `b` (and, to set a config value,
/// `value`) as its arguments; a good answer becomes the matching output, a
/// failed one a `ToolFailed` with the hive's own message.
pub open spec fn hive_answered<O: HiveOperations>(
    ops: O,
    tag: int,
    a: Seq<char>,
    b: Seq<char>,
    value: ArgValue,
    r: Result<HiveOutput, SkillError>,
) -> bool {
    match r {
        Ok(HiveOutput::Agents(v)) => tag == 0 && ops.agents_listed(Ok(v)),
        Ok(HiveOutput::Created(id)) => tag == 1 && ops.entity_created(a, Ok(id)),
        Ok(HiveOutput::Done) => (tag == 2 && ops.entity_loaded(a, Ok(())))
            || (tag == 4 && ops.config_set(a, value, Ok(())))
            || (tag == 5 && ops.secret_stored(a, b, Ok(()))),
        Ok(HiveOutput::Config(v)) => tag == 3 && ops.config_read(a, Ok(v)),
        Ok(HiveOutput::SecretNames(v)) => tag == 6 && ops.secret_names_listed(Ok(v)),
        Err(SkillError::ToolFailed(m)) => (tag == 0 && ops.agents_listed(Err(m)))
            || (tag == 1 && ops.entity_created(a, Err(m)))
            || (tag == 2 && ops.entity_loaded(a, Err(m)))
            || (tag == 3 && ops.config_read(a, Err(m)))
            || (tag == 4 && ops.config_set(a, value, Err(m)))
            || (tag == 5 && ops.secret_stored(a, b, Err(m)))
            || (tag == 6 && ops.secret_names_listed(Err(m))),
        Err(_) => false,
    }
}

/// Runs a hive tool call against the hive: the call is decoded as
/// `hive_command` does (see `hive_expected`), a decoding error is the
/// result, and otherwise the hive is asked for that operation with the
/// call's arguments and its answer is passed on (see `hive_answered`).
pub fn execute_hive_tool<O: HiveOperations>(ops: &O, tool: &str, args: &ToolArgs) -> (r: Result<HiveOutput, SkillError>)
    ensures
        match hive_expected(tool@, args.entries@) {
            Err(e) => r is Err && failure_text(r) == e,
            Ok(v) => hive_answered(*ops, v.0, v.1, v.2, arg_of(args.entries@, "value"@)->0, r),
        },
{
    proof {
        reveal_strlit("value");
    }
    let cmd = hive_command(tool, args);
    let ghost decoded = cmd;
    let ghost value_arg = arg_of(args.entries@, "value"@)->0;
    let r = match cmd {
        Err(e) => Err(e),
        Ok(HiveCommand::ListEntities) => {
            let out = ops.list_agents();
            let r = match out {
                Ok(v) => Ok(HiveOutput::Agents(v)),
                Err(m) => Err(SkillError::ToolFailed(m)),
            };
            assert(hive_answered(*ops, 0, Seq::empty(), Seq::empty(), value_arg, r));
            r
        },
        Ok(HiveCommand::CreateEntity { name }) => {
            let out = ops.create_agent(name.as_str());
            let r = match out {
                Ok(id) => Ok(HiveOutput::Created(id)),
                Err(m) => Err(SkillError::ToolFailed(m)),
            };
            assert(hive_answered(*ops, 1, name@, Seq::empty(), value_arg, r));
            r
        },
        Ok(HiveCommand::SwitchEntity { id }) => {
            let out = ops.load_agent(id.as_str());
            let r = match out {
                Ok(u) => {
                    assert(out == Ok::<(), String>(u) && u == ());
                    Ok(HiveOutput::Done)
                },
                Err(m) => Err(SkillError::ToolFailed(m)),
            };
            assert(hive_answered(*ops, 2, id@, Seq::empty(), value_arg, r));
            r
        },
        Ok(HiveCommand::GetConfig { key }) => {
            let out = ops.get_config_value(key.as_str());
            let r = match out {
                Ok(v) => Ok(HiveOutput::Config(v)),
                Err(m) => Err(SkillError::ToolFailed(m)),
            };
            assert(hive_answered(*ops, 3, key@, Seq::empty(), value_arg, r));
            r
        },
        Ok(HiveCommand::SetConfig { key }) => match args.get("value") {
            Some(value) => {
                let out = ops.set_config_value(key.as_str(), value);
                let r = match out {
                    Ok(u) => {
                        assert(out == Ok::<(), String>(u) && u == ());
                        Ok(HiveOutput::Done)
                    },
                    Err(m) => Err(SkillError::ToolFailed(m)),
                };
                assert(hive_answered(*ops, 4, key@, Seq::empty(), value_arg, r));
                r
            },
            None => Err(missing("value")),
        },
        Ok(HiveCommand::StoreSecret { key, value }) => {
            let out = ops.set_skill_secret(key.as_str(), value.as_str());
            let r = match out {
                Ok(u) => {
                    assert(out == Ok::<(), String>(u) && u == ());
                    Ok(HiveOutput::Done)
                },
                Err(m) => Err(SkillError::ToolFailed(m)),
            };
            assert(hive_answered(*ops, 5, key@, value@, value_arg, r));
            r
        },
        Ok(HiveCommand::ListSecrets) => {
            let out = ops.get_skill_secret_names();
            let r = match out {
                Ok(v) => Ok(HiveOutput::SecretNames(v)),
                Err(m) => Err(SkillError::ToolFailed(m)),
            };
            assert(hive_answered(*ops, 6, Seq::empty(), Seq::empty(), value_arg, r));
            r
        },
    };
    proof {
        match decoded {
            Ok(c) => {
                let v = hive_view(c);
                assert(hive_expected(tool@, args.entries@) == Ok::<(int, Seq<char>, Seq<char>), Option<Seq<char>>>(v));
            },
            Err(_) => {},
        }
    }
    r
}

// ---------------------------------------------------------------- queue

/// Priority of a queued job.
#[derive(Debug, Clone, Copy, PartialEq, Eq, Structural)]
pub enum JobPriority {
    Low,
    Normal,
    High,
    Critical,
}

/// `s` equals the ASCII word whose lower and upper case forms are given,
/// ignoring ASCII case.
pub open spec fn ci_equals(s: Seq<char>, lower: Seq<char>, upper: Seq<char>) -> bool {
    s.len() == lower.len() && forall|i: int| 0 <= i < s.len() ==> (#[trigger] s[i] == lower[i] || s[i] == upper[i])
}

fn ci_equals_exec(s: &[char], lower: &str, upper: &str) -> (r: bool)
    requires
        lower@.len() == upper@.len(),
    ensures
        r == ci_equals(s@, lower@, upper@),
{
    let lo = crate::text::chars_of(lower);
    let up = crate::text::chars_of(upper);
    if s.len() != lo.len() {
        return false;
    }
    let mut i: usize = 0;
    while i < s.len()
        invariant
            i <= s@.len(),
            s@.len() == lo@.len(),
            lo@.len() == up@.len(),
            lo@ == lower@,
            up@ == upper@,
            forall|j: int| 0 <= j < i ==> (#[trigger] s@[j] == lo@[j] || s@[j] == up@[j]),
        decreases s@.len() - i,
    {
        if s[i] != lo[i] && s[i] != up[i] {
            return false;
        }
        i += 1;
    }
    true
}

/// Whether `s` equals an ASCII word ignoring ASCII case (see `ci_equals`).
pub fn ci_equals_pub(s: &[char], lower: &str, upper: &str) -> (r: bool)
    requires
        lower@.len() == upper@.len(),
    ensures
        r == ci_equals(s@, lower@, upper@),
{
    ci_equals_exec(s, lower, upper)
}

/// The priority named by an optional text (default `normal`), ignoring
/// ASCII case: `low`, `high`, `critical`; anything else is normal.
pub open spec fn priority_of(v: Option<Seq<char>>) -> JobPriority {
    match v {
        Some(t) => if ci_equals(t, "low"@, "LOW"@) {
            JobPriority::Low
        } else if ci_equals(t, "high"@, "HIGH"@) {
            JobPriority::High
        } else if ci_equals(t, "critical"@, "CRITICAL"@) {
            JobPriority::Critical
        } else {
            JobPriority::Normal
        },
        None => JobPriority::Normal,
    }
}

/// Parse a job priority (see `priority_of`).
pub fn parse_priority(value: Option<&str>) -> (p: JobPriority)
    ensures
        p == priority_of(match value { Some(v) => Some(v@), None => None }),
{
    proof {
        reveal_strlit("low");
        reveal_strlit("LOW");
        reveal_strlit("high");
        reveal_strlit("HIGH");
        reveal_strlit("critical");
        reveal_strlit("CRITICAL");
    }
    match value {
        Some(v) => {
            let cs = crate::text::chars_of(v);
            if ci_equals_exec(cs.as_slice(), "low", "LOW") {
                JobPriority::Low
            } else if ci_equals_exec(cs.as_slice(), "high", "HIGH") {
                JobPriority::High
            } else if ci_equals_exec(cs.as_slice(), "critical", "CRITICAL") {
                JobPriority::Critical
            } else {
                JobPriority::Normal
            }
        },
        None => JobPriority::Normal,
    }
}

/// A job to submit.
#[derive(Debug)]
pub struct JobRequest {
    pub goal: String,
    pub topic: String,
    /// The required capability's name, when given.
    pub capability: Option<String>,
    pub priority: JobPriority,
    pub time_budget_ms: u64,
    pub max_turns: u32,
    pub system_context: Option<String>,
    pub allowed_skill_ids: Vec<String>,
    pub ttl_seconds: u64,
    /// The call has an `input_data` argument (passed on as is).
    pub has_input_data: bool,
    pub parent_job_id: Option<String>,
}

/// The queue operation a tool call asks for.
#[derive(Debug)]
pub enum QueueCommand {
    Submit(JobRequest),
    CheckStatus { job_id: String },
    List { status: Option<String>, limit: usize },
    Cancel { job_id: String },
    TopicResults { topic: String, limit: usize },
}

/// An optional string by view.
pub open spec fn opt_view(o: Option<String>) -> Option<Seq<char>> {
    match o {
        Some(s) => Some(s@),
        None => None,
    }
}

/// A non-negative integer argument that fits in `u32`.
pub open spec fn u32_arg(args: Seq<(String, crate::tool_args::ArgValue)>, key: Seq<char>) -> Option<u32> {
    match uint_arg(args, key) {
        Some(n) => if n <= u32::MAX { Some(n as u32) } else { None },
        None => None,
    }
}

/// A non-negative integer argument that fits in `usize`.
pub open spec fn usize_arg(args: Seq<(String, crate::tool_args::ArgValue)>, key: Seq<char>) -> Option<usize> {
    match uint_arg(args, key) {
        Some(n) => if n <= usize::MAX { Some(n as usize) } else { None },
        None => None,
    }
}

/// The job a `submit_job` call describes: goal and topic as given, then
/// each optional argument or its default (priority normal, 120 000 ms,
/// 10 turns, no skills, 3600 s).
pub open spec fn job_matches(j: JobRequest, args: Seq<(String, crate::tool_args::ArgValue)>) -> bool {
    &&& lenient_string_arg(args, "goal"@) == Some(j.goal@)
    &&& lenient_string_arg(args, "topic"@) == Some(j.topic@)
    &&& opt_view(j.capability) == lenient_string_arg(args, "capability"@)
    &&& j.priority == priority_of(lenient_string_arg(args, "priority"@))
    &&& j.time_budget_ms == (match uint_arg(args, "time_budget_ms"@) { Some(n) => n, None => 120_000u64 })
    &&& j.max_turns == (match u32_arg(args, "max_turns"@) { Some(n) => n, None => 10u32 })
    &&& opt_view(j.system_context) == lenient_string_arg(args, "system_context"@)
    &&& (match strings_arg(args, "allowed_skill_ids"@) { Some(v) => j.allowed_skill_ids@ == v, None => j.allowed_skill_ids@.len() == 0 })
    &&& j.ttl_seconds == (match uint_arg(args, "ttl_seconds"@) { Some(n) => n, None => 3600u64 })
    &&& j.has_input_data == (arg_of(args, "input_data"@) is Some)
    &&& opt_view(j.parent_job_id) == lenient_string_arg(args, "parent_job_id"@)
}

/// Whether `r` is the operation the call asks for (other than a
/// submission).
pub open spec fn queue_ok_matches(r: Result<QueueCommand, SkillError>, tool: Seq<char>, args: Seq<(String, crate::tool_args::ArgValue)>) -> bool {
    match r {
        Ok(QueueCommand::CheckStatus { job_id }) => tool == "check_job_status"@ && lenient_string_arg(args, "job_id"@) == Some(job_id@),
        Ok(QueueCommand::List { status, limit }) => tool == "list_jobs"@ && opt_view(status) == lenient_string_arg(args, "status"@)
            && limit == (match usize_arg(args, "limit"@) { Some(n) => n, None => 50usize }),
        Ok(QueueCommand::Cancel { job_id }) => tool == "cancel_job"@ && lenient_string_arg(args, "job_id"@) == Some(job_id@),
        Ok(QueueCommand::TopicResults { topic, limit }) => tool == "list_topic_results"@ && lenient_string_arg(args, "topic"@) == Some(topic@)
            && limit == (match usize_arg(args, "limit"@) { Some(n) => n, None => 50usize }),
        Ok(QueueCommand::Submit(j)) => tool == "submit_job"@ && job_matches(j, args),
        Err(_) => false,
    }
}

/// The error a queue call gives, if any: a missing required argument (read
/// leniently as a string) or an unknown tool.
pub open spec fn queue_error(tool: Seq<char>, args: Seq<(String, crate::tool_args::ArgValue)>) -> Option<Seq<char>> {
    if tool == "submit_job"@ {
        if lenient_string_arg(args, "goal"@) is None {
            Some(missing_text("goal"@))
        } else if lenient_string_arg(args, "topic"@) is None {
            Some(missing_text("topic"@))
        } else {
            None
        }
    } else if tool == "check_job_status"@ || tool == "cancel_job"@ {
        if lenient_string_arg(args, "job_id"@) is None { Some(missing_text("job_id"@)) } else { None }
    } else if tool == "list_jobs"@ {
        None
    } else if tool == "list_topic_results"@ {
        if lenient_string_arg(args, "topic"@) is None { Some(missing_text("topic"@)) } else { None }
    } else {
        Some(unknown_tool_text(tool))
    }
}

fn required_lenient(args: &ToolArgs, name: &str) -> (r: Result<String, SkillError>)
    ensures
        lenient_string_arg(args.entries@, name@) matches Some(s) ==> r matches Ok(v) && v@ == s,
        lenient_string_arg(args.entries@, name@) is None ==> r is Err && failure_text(r) == Some(missing_text(name@)),
{
    match args.get_string(name) {
        Some(s) => Ok(s),
        None => Err(missing(name)),
    }
}

fn limit_arg(args: &ToolArgs) -> (n: usize)
    ensures
        n == (match usize_arg(args.entries@, "limit"@) { Some(n) => n, None => 50usize }),
{
    match args.get_u64("limit") {
        Some(n) => if n <= usize::MAX as u64 { n as usize } else { 50 },
        None => 50,
    }
}

/// The queue operation a tool call asks for: the error of `queue_error`
/// when there is one, else the operation `queue_ok_matches` describes.
pub fn queue_command(tool: &str, args: &ToolArgs) -> (r: Result<QueueCommand, SkillError>)
    ensures
        queue_error(tool@, args.entries@) matches Some(m) ==> failure_text(r) == Some(m),
        queue_error(tool@, args.entries@) is None ==> queue_ok_matches(r, tool@, args.entries@),
{
    proof {
        reveal_strlit("submit_job");
        reveal_strlit("check_job_status");
        reveal_strlit("list_jobs");
        reveal_strlit("cancel_job");
        reveal_strlit("list_topic_results");
        assert("cancel_job"@[0] != "submit_job"@[0]);
    }
    if str_eq(tool, "submit_job") {
        let goal = match required_lenient(args, "goal") {
            Ok(g) => g,
            Err(e) => {
                return Err(e);
            },
        };
        let topic = match required_lenient(args, "topic") {
            Ok(t) => t,
            Err(e) => {
                return Err(e);
            },
        };
        let capability = args.get_string("capability");
        let priority_text = args.get_string("priority");
        let priority = match &priority_text {
            Some(t) => parse_priority(Some(t.as_str())),
            None => parse_priority(None),
        };
        let time_budget_ms = match args.get_u64("time_budget_ms") {
            Some(n) => n,
            None => 120_000,
        };
        let max_turns: u32 = match args.get_u64("max_turns") {
            Some(n) => if n <= u32::MAX as u64 { n as u32 } else { 10 },
            None => 10,
        };
        let system_context = args.get_string("system_context");
        let allowed_skill_ids = match args.get_strings("allowed_skill_ids") {
            Some(v) => v,
            None => Vec::new(),
        };
        let ttl_seconds = match args.get_u64("ttl_seconds") {
            Some(n) => n,
            None => 3600,
        };
        let has_input_data = args.has("input_data");
        let parent_job_id = args.get_string("parent_job_id");
        Ok(QueueCommand::Submit(JobRequest {
            goal,
            topic,
            capability,
            priority,
            time_budget_ms,
            max_turns,
            system_context,
            allowed_skill_ids,
            ttl_seconds,
            has_input_data,
            parent_job_id,
        }))
    } else if str_eq(tool, "check_job_status") {
        match required_lenient(args, "job_id") {
            Ok(job_id) => Ok(QueueCommand::CheckStatus { job_id }),
            Err(e) => Err(e),
        }
    } else if str_eq(tool, "list_jobs") {
        let status = args.get_string("status");
        let limit = limit_arg(args);
        Ok(QueueCommand::List { status, limit })
    } else if str_eq(tool, "cancel_job") {
        match required_lenient(args, "job_id") {
            Ok(job_id) => Ok(QueueCommand::Cancel { job_id }),
            Err(e) => Err(e),
        }
    } else if str_eq(tool, "list_topic_results") {
        match required_lenient(args, "topic") {
            Ok(topic) => {
                let limit = limit_arg(args);
                Ok(QueueCommand::TopicResults { topic, limit })
            },
            Err(e) => Err(e),
        }
    } else {
        Err(unknown_tool(tool))
    }
}

/// The job queue the queue skill works on; the host implements it. Its job
/// records are its own (`Job`) and are handed back as they are. As for
/// `HiveOperations`, each answer is tied to its arguments by a predicate of
/// the implementation that holds of every answer by default.
pub trait QueueOperations {
    /// The host's record of a job.
    type Job;

    /// `r` is this queue's answer to submitting `job` with the call's
    /// `input_data` argument.
    open spec fn job_submitted(&self, job: JobRequest, input_data: Option<ArgValue>, r: Result<String, String>) -> bool {
        true
    }

    /// `r` is this queue's answer to looking up the job `job_id`.
    open spec fn job_looked_up(&self, job_id: Seq<char>, r: Result<Option<Self::Job>, String>) -> bool {
        true
    }

    /// `r` is this queue's answer to listing up to `limit` jobs, of the
    /// given status when there is one.
    open spec fn jobs_listed(&self, status: Option<Seq<char>>, limit: usize, r: Result<Vec<Self::Job>, String>) -> bool {
        true
    }

    /// `r` is this queue's answer to cancelling the job `job_id`.
    open spec fn job_cancelled(&self, job_id: Seq<char>, r: Result<(), String>) -> bool {
        true
    }

    /// `r` is this queue's answer to listing up to `limit` results of `topic`.
    open spec fn topic_listed(&self, topic: Seq<char>, limit: usize, r: Result<Vec<Self::Job>, String>) -> bool {
        true
    }

    /// `r` is this queue's answer to whether every job of `topic` is over.
    open spec fn topic_terminal(&self, topic: Seq<char>, r: Result<bool, String>) -> bool {
        true
    }

    fn submit_job(&self, job: JobRequest, input_data: Option<&ArgValue>) -> (r: Result<String, String>)
        ensures
            self.job_submitted(job, match input_data {
                Some(v) => Some(*v),
                None => None,
            }, r),
    ;

    fn get_job(&self, job_id: &str) -> (r: Result<Option<Self::Job>, String>)
        ensures
            self.job_looked_up(job_id@, r),
    ;

    fn list_jobs(&self, status: Option<&str>, limit: usize) -> (r: Result<Vec<Self::Job>, String>)
        ensures
            self.jobs_listed(match status {
                Some(s) => Some(s@),
                None => None,
            }, limit, r),
    ;

    fn cancel_job(&self, job_id: &str) -> (r: Result<(), String>)
        ensures
            self.job_cancelled(job_id@, r),
    ;

    fn topic_results(&self, topic: &str, limit: usize) -> (r: Result<Vec<Self::Job>, String>)
        ensures
            self.topic_listed(topic@, limit, r),
    ;

    fn topic_all_terminal(&self, topic: &str) -> (r: Result<bool, String>)
        ensures
            self.topic_terminal(topic@, r),
    ;
}

/// What a queue tool call gave back.
#[derive(Debug)]
pub enum QueueOutput<J> {
    /// The job was queued under `job_id` on `topic`.
    Submitted { job_id: String, topic: String },
    /// The job looked up.
    Status(J),
    /// The jobs listed.
    Jobs(Vec<J>),
    /// The job `job_id` was cancelled.
    Cancelled { job_id: String },
    /// The results of `topic`, and whether all its jobs are over.
    TopicResults { topic: String, all_terminal: bool, jobs: Vec<J> },
}

/// The error for a job that is not there: `Job '<id>' not found`.
pub open spec fn job_not_found_text(job_id: Seq<char>) -> Seq<char> {
    "Job '"@ + job_id + "' not found"@
}

/// The decoded queue call `cmd` is what `queue_command` gives for `tool`
/// and `args`.
pub open spec fn queue_decoded(cmd: Result<QueueCommand, SkillError>, tool: Seq<char>, args: Seq<(String, ArgValue)>) -> bool {
    &&& (queue_error(tool, args) matches Some(m) ==> failure_text(cmd) == Some(m))
    &&& (queue_error(tool, args) is None ==> queue_ok_matches(cmd, tool, args))
}

/// Whether `r` is what running the decoded queue call `cmd` against the
/// queue `ops` gives: a decoding error as it is; otherwise the queue is
/// asked for that operation with its arguments (a submission with the
/// call's `input_data`), a good answer becomes the matching output, a
/// missing job the `not found` error, and a failure a `ToolFailed` with the
/// queue's own message. Topic results ask for the results, then whether
/// the topic is over.
pub open spec fn queue_answered<O: QueueOperations>(
    ops: O,
    cmd: Result<QueueCommand, SkillError>,
    input_data: Option<ArgValue>,
    r: Result<QueueOutput<O::Job>, SkillError>,
) -> bool {
    match cmd {
        Err(e) => r == Err::<QueueOutput<O::Job>, SkillError>(e),
        Ok(QueueCommand::Submit(j)) => match r {
            Ok(QueueOutput::Submitted { job_id, topic }) => topic == j.topic && ops.job_submitted(j, input_data, Ok(job_id)),
            Err(SkillError::ToolFailed(m)) => ops.job_submitted(j, input_data, Err(m)),
            _ => false,
        },
        Ok(QueueCommand::CheckStatus { job_id }) => match r {
            Ok(QueueOutput::Status(job)) => ops.job_looked_up(job_id@, Ok(Some(job))),
            Err(SkillError::ToolFailed(m)) => ops.job_looked_up(job_id@, Err(m))
                || (ops.job_looked_up(job_id@, Ok(None)) && m@ == job_not_found_text(job_id@)),
            _ => false,
        },
        Ok(QueueCommand::List { status, limit }) => match r {
            Ok(QueueOutput::Jobs(v)) => ops.jobs_listed(opt_view(status), limit, Ok(v)),
            Err(SkillError::ToolFailed(m)) => ops.jobs_listed(opt_view(status), limit, Err(m)),
            _ => false,
        },
        Ok(QueueCommand::Cancel { job_id }) => match r {
            Ok(QueueOutput::Cancelled { job_id: j2 }) => j2 == job_id && ops.job_cancelled(job_id@, Ok(())),
            Err(SkillError::ToolFailed(m)) => ops.job_cancelled(job_id@, Err(m)),
            _ => false,
        },
        Ok(QueueCommand::TopicResults { topic, limit }) => match r {
            Ok(QueueOutput::TopicResults { topic: t2, all_terminal, jobs }) => t2 == topic
                && ops.topic_listed(topic@, limit, Ok(jobs)) && ops.topic_terminal(topic@, Ok(all_terminal)),
            Err(SkillError::ToolFailed(m)) => ops.topic_listed(topic@, limit, Err(m))
                || exists|jobs: Vec<O::Job>| ops.topic_listed(topic@, limit, Ok(jobs)) && ops.topic_terminal(topic@, Err(m)),
            _ => false,
        },
    }
}

/// Runs a queue tool call against the queue: decoded as `queue_command`
/// does, then asked of the queue (see `queue_answered`).
pub fn execute_queue_tool<O: QueueOperations>(ops: &O, tool: &str, args: &ToolArgs) -> (r: Result<QueueOutput<O::Job>, SkillError>)
    ensures
        exists|cmd: Result<QueueCommand, SkillError>|
            queue_decoded(cmd, tool@, args.entries@) && #[trigger] queue_answered(*ops, cmd, arg_of(args.entries@, "input_data"@), r),
{
    proof {
        reveal_strlit("input_data");
    }
    let cmd = queue_command(tool, args);
    let ghost decoded = cmd;
    let ghost input = arg_of(args.entries@, "input_data"@);
    let r = match cmd {
        Err(e) => Err(e),
        Ok(QueueCommand::Submit(j)) => {
            let topic = j.topic.clone();
            let ghost jg = j;
            let input_data = args.get("input_data");
            let out = ops.submit_job(j, input_data);
            assert(ops.job_submitted(jg, input, out));
            match out {
                Ok(job_id) => Ok(QueueOutput::Submitted { job_id, topic }),
                Err(m) => Err(SkillError::ToolFailed(m)),
            }
        },
        Ok(QueueCommand::CheckStatus { job_id }) => match ops.get_job(job_id.as_str()) {
            Ok(Some(job)) => Ok(QueueOutput::Status(job)),
            Ok(None) => {
                let mut v: Vec<char> = Vec::new();
                crate::text::append_str(&mut v, "Job '");
                crate::text::append_str(&mut v, job_id.as_str());
                crate::text::append_str(&mut v, "' not found");
                Err(SkillError::ToolFailed(crate::text::string_of(v.as_slice())))
            },
            Err(m) => Err(SkillError::ToolFailed(m)),
        },
        Ok(QueueCommand::List { status, limit }) => {
            let st: Option<&str> = match &status {
                Some(s) => Some(s.as_str()),
                None => None,
            };
            match ops.list_jobs(st, limit) {
                Ok(v) => Ok(QueueOutput::Jobs(v)),
                Err(m) => Err(SkillError::ToolFailed(m)),
            }
        },
        Ok(QueueCommand::Cancel { job_id }) => {
            let out = ops.cancel_job(job_id.as_str());
            match out {
                Ok(u) => {
                    assert(out == Ok::<(), String>(u) && u == ());
                    Ok(QueueOutput::Cancelled { job_id })
                },
                Err(m) => Err(SkillError::ToolFailed(m)),
            }
        },
        Ok(QueueCommand::TopicResults { topic, limit }) => match ops.topic_results(topic.as_str(), limit) {
            Err(m) => Err(SkillError::ToolFailed(m)),
            Ok(jobs) => {
                let ghost listed = jobs;
                match ops.topic_all_terminal(topic.as_str()) {
                    Ok(all_terminal) => Ok(QueueOutput::TopicResults { topic, all_terminal, jobs }),
                    Err(m) => {
                        assert(ops.topic_listed(topic@, limit, Ok(listed)));
                        Err(SkillError::ToolFailed(m))
                    },
                }
            },
        },
    };
    assert(queue_answered(*ops, decoded, input, r));
    r
}

/// The error for a job that was not found: `Job '<id>' not found`.
pub fn job_not_found(job_id: &str) -> (e: SkillError)
    ensures
        e matches SkillError::ToolFailed(m) && m@ == "Job '"@ + job_id@ + "' not found"@,
{
    let mut v: Vec<char> = Vec::new();
    crate::text::append_str(&mut v, "Job '");
    crate::text::append_str(&mut v, job_id);
    crate::text::append_str(&mut v, "' not found");
    SkillError::ToolFailed(crate::text::string_of(v.as_slice()))
}

/// Text of a job priority.
pub fn priority_text(p: JobPriority) -> (s: &'static str)
    ensures
        p is Low ==> s@ == "low"@,
        p is Normal ==> s@ == "normal"@,
        p is High ==> s@ == "high"@,
        p is Critical ==> s@ == "critical"@,
{
    match p {
        JobPriority::Low => "low",
        JobPriority::Normal => "normal",
        JobPriority::High => "high",
        JobPriority::Critical => "critical",
    }
}

/// Manifest of the queue management skill.
pub fn queue_manifest() -> (m: SkillManifest)
    ensures
        m.id.0@ == "builtin.queue_management"@,
        m.name@ == "Queue Management"@,
{
    let kws: [&str; 4] = ["queue", "job", "agent", "topic"];
    builtin_manifest("builtin.queue_management", "Queue Management", "Submit and manage async delegated jobs for sub-agents.", &kws)
}

/// The queue tools: names and whether they need confirmation.
pub open spec fn queue_tools() -> Seq<(Seq<char>, bool)> {
    seq![
        ("submit_job"@, false),
        ("check_job_status"@, false),
        ("list_jobs"@, false),
        ("cancel_job"@, true),
        ("list_topic_results"@, false),
    ]
}

/// The tools of the queue management skill in full: name, description,
/// parameter schema, result schema (JSON texts) and whether a call needs
/// confirmation.
pub open spec fn queue_tool_texts() -> Seq<(Seq<char>, Seq<char>, Seq<char>, Seq<char>, bool)> {
    seq![
        ("submit_job"@, "Submit a new async job to the queue."@, "{\"type\":\"object\",\"properties\":{\"goal\":{\"type\":\"string\"},\"topic\":{\"type\":\"string\"},\"capability\":{\"type\":\"string\"},\"priority\":{\"type\":\"string\"},\"time_budget_ms\":{\"type\":\"integer\"},\"max_turns\":{\"type\":\"integer\"},\"system_context\":{\"type\":\"string\"},\"allowed_skill_ids\":{\"type\":\"array\",\"items\":{\"type\":\"string\"}},\"ttl_seconds\":{\"type\":\"integer\"},\"input_data\":{},\"parent_job_id\":{\"type\":\"string\"}},\"required\":[\"goal\",\"topic\"]}"@, "{\"type\":\"object\"}"@, false),
        ("check_job_status"@, "Get the status/details for a queued job."@, "{\"type\":\"object\",\"properties\":{\"job_id\":{\"type\":\"string\"}},\"required\":[\"job_id\"]}"@, "{\"type\":\"object\"}"@, false),
        ("list_jobs"@, "List queued/running/completed jobs with optional status filter."@, "{\"type\":\"object\",\"properties\":{\"status\":{\"type\":\"string\"},\"limit\":{\"type\":\"integer\"}}}"@, "{\"type\":\"array\"}"@, false),
        ("cancel_job"@, "Cancel a queued or running job."@, "{\"type\":\"object\",\"properties\":{\"job_id\":{\"type\":\"string\"}},\"required\":[\"job_id\"]}"@, "{\"type\":\"object\"}"@, true),
        ("list_topic_results"@, "Get completed results for all jobs in a topic."@, "{\"type\":\"object\",\"properties\":{\"topic\":{\"type\":\"string\"},\"limit\":{\"type\":\"integer\"}},\"required\":[\"topic\"]}"@, "{\"type\":\"object\"}"@, false),
    ]
}

/// The tools of the queue management skill.
pub fn queue_tool_specs() -> (v: Vec<ToolSpec>)
    ensures
        tool_summary(v@) == queue_tools(),
        tool_texts(v@) == queue_tool_texts(),
{
    let mut v: Vec<ToolSpec> = Vec::new();
    v.push(tool_spec("submit_job", "Submit a new async job to the queue.",
        "{\"type\":\"object\",\"properties\":{\"goal\":{\"type\":\"string\"},\"topic\":{\"type\":\"string\"},\"capability\":{\"type\":\"string\"},\"priority\":{\"type\":\"string\"},\"time_budget_ms\":{\"type\":\"integer\"},\"max_turns\":{\"type\":\"integer\"},\"system_context\":{\"type\":\"string\"},\"allowed_skill_ids\":{\"type\":\"array\",\"items\":{\"type\":\"string\"}},\"ttl_seconds\":{\"type\":\"integer\"},\"input_data\":{},\"parent_job_id\":{\"type\":\"string\"}},\"required\":[\"goal\",\"topic\"]}",
        "{\"type\":\"object\"}",
        false));
    v.push(tool_spec("check_job_status", "Get the status/details for a queued job.",
        "{\"type\":\"object\",\"properties\":{\"job_id\":{\"type\":\"string\"}},\"required\":[\"job_id\"]}",
        "{\"type\":\"object\"}",
        false));
    v.push(tool_spec("list_jobs", "List queued/running/completed jobs with optional status filter.",
        "{\"type\":\"object\",\"properties\":{\"status\":{\"type\":\"string\"},\"limit\":{\"type\":\"integer\"}}}",
        "{\"type\":\"array\"}",
        false));
    v.push(tool_spec("cancel_job", "Cancel a queued or running job.",
        "{\"type\":\"object\",\"properties\":{\"job_id\":{\"type\":\"string\"}},\"required\":[\"job_id\"]}",
        "{\"type\":\"object\"}",
        true));
    v.push(tool_spec("list_topic_results", "Get completed results for all jobs in a topic.",
        "{\"type\":\"object\",\"properties\":{\"topic\":{\"type\":\"string\"},\"limit\":{\"type\":\"integer\"}},\"required\":[\"topic\"]}",
        "{\"type\":\"object\"}",
        false));
    proof {
        reveal_strlit("submit_job");
        reveal_strlit("check_job_status");
        reveal_strlit("list_jobs");
        reveal_strlit("cancel_job");
        reveal_strlit("list_topic_results");
    }
    assert(tool_summary(v@) =~= queue_tools());
    assert(tool_texts(v@) =~= queue_tool_texts());
    v
}

// ---------------------------------------------------------------- backup

/// A backup directory.
#[derive(Debug)]
pub struct BackupInfo {
    pub path: String,
    pub timestamp: String,
    pub has_memory_db: bool,
}

/// What a backup holds.
#[derive(Debug)]
pub struct BackupPreview {
    pub db_path: String,
    pub turn_count: u64,
    pub memory_count: u64,
    pub session_count: u64,
    pub earliest: Option<String>,
    pub latest: Option<String>,
}

/// What an import did.
#[derive(Debug)]
pub struct BackupImportResult {
    pub turns_imported: u64,
    pub turns_skipped: u64,
    pub memories_imported: u64,
    pub memories_skipped: u64,
}

/// The backup operation a tool call asks for.
#[derive(Debug)]
pub enum BackupCommand {
    List,
    Preview { backup_path: String },
    Import { backup_path: String },
}

/// Whether `r` is the backup operation a call of `tool` asks for, or the
/// error it gives.
pub open spec fn backup_expected(r: Result<BackupCommand, SkillError>, tool: Seq<char>, args: Seq<(String, crate::tool_args::ArgValue)>) -> bool {
    if tool == "list_backups"@ {
        r matches Ok(BackupCommand::List)
    } else if tool == "preview_backup"@ || tool == "import_backup"@ {
        match string_arg(args, "backup_path"@) {
            Some(p) => match r {
                Ok(BackupCommand::Preview { backup_path }) => tool == "preview_backup"@ && backup_path@ == p,
                Ok(BackupCommand::Import { backup_path }) => tool == "import_backup"@ && backup_path@ == p,
                _ => false,
            },
            None => r is Err && failure_text(r) == Some(missing_text("backup_path"@)),
        }
    } else {
        r is Err && failure_text(r) == Some(unknown_tool_text(tool))
    }
}

/// The backup operation a tool call asks for (see `backup_expected`).
pub fn backup_command(tool: &str, args: &ToolArgs) -> (r: Result<BackupCommand, SkillError>)
    ensures
        backup_expected(r, tool@, args.entries@),
{
    proof {
        reveal_strlit("list_backups");
        reveal_strlit("preview_backup");
        reveal_strlit("import_backup");
    }
    if str_eq(tool, "list_backups") {
        Ok(BackupCommand::List)
    } else if str_eq(tool, "preview_backup") {
        match required_str(args, "backup_path") {
            Ok(backup_path) => Ok(BackupCommand::Preview { backup_path }),
            Err(e) => Err(e),
        }
    } else if str_eq(tool, "import_backup") {
        match required_str(args, "backup_path") {
            Ok(backup_path) => Ok(BackupCommand::Import { backup_path }),
            Err(e) => Err(e),
        }
    } else {
        Err(unknown_tool(tool))
    }
}

/// The backup store the backup skill works on; the host implements it.
pub trait BackupOperations {
    /// `r` is this store's answer to listing the backups (by default any
    /// answer; see `HiveOperations` for how these predicates are used).
    open spec fn backups_listed(&self, r: Result<Vec<BackupInfo>, String>) -> bool {
        true
    }

    /// `r` is this store's answer to previewing the backup at `backup_path`.
    open spec fn backup_previewed(&self, backup_path: Seq<char>, r: Result<BackupPreview, String>) -> bool {
        true
    }

    /// `r` is this store's answer to importing the backup at `backup_path`.
    open spec fn backup_imported(&self, backup_path: Seq<char>, r: Result<BackupImportResult, String>) -> bool {
        true
    }

    fn list_backups(&self) -> (r: Result<Vec<BackupInfo>, String>)
        ensures
            self.backups_listed(r),
    ;

    fn preview_backup(&self, backup_path: &str) -> (r: Result<BackupPreview, String>)
        ensures
            self.backup_previewed(backup_path@, r),
    ;

    fn import_backup(&self, backup_path: &str) -> (r: Result<BackupImportResult, String>)
        ensures
            self.backup_imported(backup_path@, r),
    ;
}

/// What a backup tool call gave back.
#[derive(Debug)]
pub enum BackupOutput {
    Listed(Vec<BackupInfo>),
    Previewed(BackupPreview),
    Imported(BackupImportResult),
}

/// Whether `r` is what running the decoded backup call `cmd` against the
/// store `ops` gives: a decoding error as it is; otherwise the store is
/// asked for that operation with that path, and its good answer becomes
/// the matching output, its failure a `ToolFailed` with its own message.
pub open spec fn backup_answered<O: BackupOperations>(ops: O, cmd: Result<BackupCommand, SkillError>, r: Result<BackupOutput, SkillError>) -> bool {
    match cmd {
        Err(e) => r == Err::<BackupOutput, SkillError>(e),
        Ok(BackupCommand::List) => match r {
            Ok(BackupOutput::Listed(v)) => ops.backups_listed(Ok(v)),
            Err(SkillError::ToolFailed(m)) => ops.backups_listed(Err(m)),
            _ => false,
        },
        Ok(BackupCommand::Preview { backup_path }) => match r {
            Ok(BackupOutput::Previewed(p)) => ops.backup_previewed(backup_path@, Ok(p)),
            Err(SkillError::ToolFailed(m)) => ops.backup_previewed(backup_path@, Err(m)),
            _ => false,
        },
        Ok(BackupCommand::Import { backup_path }) => match r {
            Ok(BackupOutput::Imported(x)) => ops.backup_imported(backup_path@, Ok(x)),
            Err(SkillError::ToolFailed(m)) => ops.backup_imported(backup_path@, Err(m)),
            _ => false,
        },
    }
}

/// Runs a backup tool call against the store: the call is decoded as
/// `backup_command` does (see `backup_expected`), and the decoded
/// operation is asked of the store with the call's path (see
/// `backup_answered`).
pub fn execute_backup_tool<O: BackupOperations>(ops: &O, tool: &str, args: &ToolArgs) -> (r: Result<BackupOutput, SkillError>)
    ensures
        exists|cmd: Result<BackupCommand, SkillError>|
            backup_expected(cmd, tool@, args.entries@) && #[trigger] backup_answered(*ops, cmd, r),
{
    let cmd = backup_command(tool, args);
    let ghost decoded = cmd;
    let r = match cmd {
        Err(e) => Err(e),
        Ok(BackupCommand::List) => match ops.list_backups() {
            Ok(v) => Ok(BackupOutput::Listed(v)),
            Err(m) => Err(SkillError::ToolFailed(m)),
        },
        Ok(BackupCommand::Preview { backup_path }) => match ops.preview_backup(backup_path.as_str()) {
            Ok(p) => Ok(BackupOutput::Previewed(p)),
            Err(m) => Err(SkillError::ToolFailed(m)),
        },
        Ok(BackupCommand::Import { backup_path }) => match ops.import_backup(backup_path.as_str()) {
            Ok(x) => Ok(BackupOutput::Imported(x)),
            Err(m) => Err(SkillError::ToolFailed(m)),
        },
    };
    assert(backup_answered(*ops, decoded, r));
    r
}

/// Manifest of the backup management skill.
pub fn backup_manifest() -> (m: SkillManifest)
    ensures
        m.id.0@ == "builtin.backup_management"@,
{
    let kws: [&str; 4] = ["backup", "restore", "import", "memory"];
    builtin_manifest("builtin.backup_management", "Backup Management", "List, preview, and import conversation history and memories from backups.", &kws)
}

/// The backup tools: names and whether they need confirmation.
pub open spec fn backup_tools() -> Seq<(Seq<char>, bool)> {
    seq![("list_backups"@, false), ("preview_backup"@, false), ("import_backup"@, true)]
}

/// The tools of the backup management skill in full: name, description,
/// parameter schema, result schema (JSON texts) and whether a call needs
/// confirmation.
pub open spec fn backup_tool_texts() -> Seq<(Seq<char>, Seq<char>, Seq<char>, Seq<char>, bool)> {
    seq![
        ("list_backups"@, "List available backup directories that contain importable memory databases. Returns paths, timestamps, and whether each backup has a usable SQLite DB."@, "{\"type\":\"object\",\"properties\":{}}"@, "{\"type\":\"array\",\"items\":{\"type\":\"object\",\"properties\":{\"path\":{\"type\":\"string\"},\"timestamp\":{\"type\":\"string\"},\"has_memory_db\":{\"type\":\"boolean\"}}}}"@, false),
        ("preview_backup"@, "Preview the contents of a backup database: count of conversation turns, memories, sessions, and date range. Does NOT modify any data."@, "{\"type\":\"object\",\"properties\":{\"backup_path\":{\"type\":\"string\",\"description\":\"Path to the backup directory (from list_backups)\"}},\"required\":[\"backup_path\"]}"@, "{\"type\":\"object\",\"properties\":{\"db_path\":{\"type\":\"string\"},\"turn_count\":{\"type\":\"integer\"},\"memory_count\":{\"type\":\"integer\"},\"session_count\":{\"type\":\"integer\"},\"earliest\":{\"type\":\"string\"},\"latest\":{\"type\":\"string\"}}}"@, false),
        ("import_backup"@, "Import conversation turns and memories from a backup into the current entity's memory store. Uses INSERT OR IGNORE for idempotent operation \u{2014} safe to run multiple times."@, "{\"type\":\"object\",\"properties\":{\"backup_path\":{\"type\":\"string\",\"description\":\"Path to the backup directory (from list_backups)\"}},\"required\":[\"backup_path\"]}"@, "{\"type\":\"object\",\"properties\":{\"turns_imported\":{\"type\":\"integer\"},\"turns_skipped\":{\"type\":\"integer\"},\"memories_imported\":{\"type\":\"integer\"},\"memories_skipped\":{\"type\":\"integer\"}}}"@, true),
    ]
}

/// The tools of the backup management skill.
pub fn backup_tool_specs() -> (v: Vec<ToolSpec>)
    ensures
        tool_summary(v@) == backup_tools(),
        tool_texts(v@) == backup_tool_texts(),
{
    let mut v: Vec<ToolSpec> = Vec::new();
    v.push(tool_spec("list_backups", "List available backup directories that contain importable memory databases. Returns paths, timestamps, and whether each backup has a usable SQLite DB.",
        "{\"type\":\"object\",\"properties\":{}}",
        "{\"type\":\"array\",\"items\":{\"type\":\"object\",\"properties\":{\"path\":{\"type\":\"string\"},\"timestamp\":{\"type\":\"string\"},\"has_memory_db\":{\"type\":\"boolean\"}}}}",
        false));
    v.push(tool_spec("preview_backup", "Preview the contents of a backup database: count of conversation turns, memories, sessions, and date range. Does NOT modify any data.",
        "{\"type\":\"object\",\"properties\":{\"backup_path\":{\"type\":\"string\",\"description\":\"Path to the backup directory (from list_backups)\"}},\"required\":[\"backup_path\"]}",
        "{\"type\":\"object\",\"properties\":{\"db_path\":{\"type\":\"string\"},\"turn_count\":{\"type\":\"integer\"},\"memory_count\":{\"type\":\"integer\"},\"session_count\":{\"type\":\"integer\"},\"earliest\":{\"type\":\"string\"},\"latest\":{\"type\":\"string\"}}}",
        false));
    v.push(tool_spec("import_backup", "Import conversation turns and memories from a backup into the current entity's memory store. Uses INSERT OR IGNORE for idempotent operation \u{2014} safe to run multiple times.",
        "{\"type\":\"object\",\"properties\":{\"backup_path\":{\"type\":\"string\",\"description\":\"Path to the backup directory (from list_backups)\"}},\"required\":[\"backup_path\"]}",
        "{\"type\":\"object\",\"properties\":{\"turns_imported\":{\"type\":\"integer\"},\"turns_skipped\":{\"type\":\"integer\"},\"memories_imported\":{\"type\":\"integer\"},\"memories_skipped\":{\"type\":\"integer\"}}}",
        true));
    proof {
        reveal_strlit("list_backups");
        reveal_strlit("preview_backup");
        reveal_strlit("import_backup");
    }
    assert(tool_summary(v@) =~= backup_tools());
    assert(tool_texts(v@) =~= backup_tool_texts());
    v
}

} // verus!
