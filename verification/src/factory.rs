//! The skill factory: the commands it accepts and the files it writes for a
//! new skill (the writing itself is the host's part).
use vstd::prelude::*;
use crate::builtin_skills::builtin_manifest;
use crate::manifest::{FileSystemPermission, Permission, SkillManifest};
use crate::text::{append_chars, append_str, chars_of, replace_all, replace_all_in, str_eq, string_of};
use crate::tool_args::{string_arg, ToolArgs};

verus! {

/// A factory command, decoded from a tool call.
#[derive(Debug)]
pub enum FactoryCommand {
    /// Create a skill: `format` is `dynamic_api` (the default) or another
    /// format, which authors a script skill.
    Author {
        id: String,
        name: String,
        description: String,
        how_to_use_md: String,
        format: String,
        required_secrets: Option<String>,
    },
    /// Remove a skill's directory.
    Delete { id: String },
}

/// The command a tool call asks for, or the error the call fails with.
pub open spec fn factory_decision(tool: Seq<char>, a: Seq<(String, crate::tool_args::ArgValue)>) -> Result<(), Seq<char>> {
    if tool == "author_skill"@ {
        if string_arg(a, "id"@) is None {
            Err("Missing 'id'"@)
        } else if string_arg(a, "name"@) is None {
            Err("Missing 'name'"@)
        } else if string_arg(a, "how_to_use_md"@) is None {
            Err("Missing 'how_to_use_md'"@)
        } else {
            Ok(())
        }
    } else if tool == "delete_skill"@ {
        if string_arg(a, "id"@) is None {
            Err("Missing 'id'"@)
        } else {
            Ok(())
        }
    } else {
        Err("Unknown tool: "@ + tool)
    }
}

/// Decodes a factory tool call. Arguments are read as strings; a missing
/// description is empty and a missing format is `dynamic_api`.
pub fn factory_command(tool_name: &str, params: &ToolArgs) -> (r: Result<FactoryCommand, String>)
    ensures
        factory_decision(tool_name@, params.entries@) matches Err(e) ==> r matches Err(m) && m@ == e,
        factory_decision(tool_name@, params.entries@) is Ok ==> r is Ok,
        r matches Ok(FactoryCommand::Author { id, name, description, how_to_use_md, format, required_secrets }) ==> {
            &&& tool_name@ == "author_skill"@
            &&& string_arg(params.entries@, "id"@) == Some(id@)
            &&& string_arg(params.entries@, "name"@) == Some(name@)
            &&& string_arg(params.entries@, "how_to_use_md"@) == Some(how_to_use_md@)
            &&& description@ == (match string_arg(params.entries@, "description"@) {
                Some(d) => d,
                None => Seq::<char>::empty(),
            })
            &&& format@ == (match string_arg(params.entries@, "format"@) {
                Some(f) => f,
                None => "dynamic_api"@,
            })
            &&& (match required_secrets {
                Some(s) => string_arg(params.entries@, "required_secrets"@) == Some(s@),
                None => string_arg(params.entries@, "required_secrets"@) is None,
            })
        },
        r matches Ok(FactoryCommand::Delete { id }) ==> tool_name@ == "delete_skill"@
            && string_arg(params.entries@, "id"@) == Some(id@),
{
    proof {
        reveal_strlit("author_skill");
        reveal_strlit("delete_skill");
        reveal_strlit("id");
        reveal_strlit("name");
        reveal_strlit("how_to_use_md");
        reveal_strlit("description");
        reveal_strlit("format");
        reveal_strlit("dynamic_api");
        reveal_strlit("required_secrets");
        reveal_strlit("Missing 'id'");
        reveal_strlit("Missing 'name'");
        reveal_strlit("Missing 'how_to_use_md'");
        reveal_strlit("Unknown tool: ");
    }
    if str_eq(tool_name, "author_skill") {
        let id = match params.get_str("id") {
            Some(v) => v,
            None => {
                return Err(String::from_str("Missing 'id'"));
            },
        };
        let name = match params.get_str("name") {
            Some(v) => v,
            None => {
                return Err(String::from_str("Missing 'name'"));
            },
        };
        let description = match params.get_str("description") {
            Some(v) => v,
            None => String::new(),
        };
        let how_to_use_md = match params.get_str("how_to_use_md") {
            Some(v) => v,
            None => {
                return Err(String::from_str("Missing 'how_to_use_md'"));
            },
        };
        let format = match params.get_str("format") {
            Some(v) => v,
            None => String::from_str("dynamic_api"),
        };
        let required_secrets = params.get_str("required_secrets");
        Ok(FactoryCommand::Author { id, name, description, how_to_use_md, format, required_secrets })
    } else if str_eq(tool_name, "delete_skill") {
        match params.get_str("id") {
            Some(id) => Ok(FactoryCommand::Delete { id }),
            None => Err(String::from_str("Missing 'id'")),
        }
    } else {
        let mut v = chars_of("Unknown tool: ");
        append_str(&mut v, tool_name);
        Err(string_of(v.as_slice()))
    }
}

/// The script parts of a script skill: its content and file name.
pub open spec fn script_parts(a: Seq<(String, crate::tool_args::ArgValue)>) -> Result<(Seq<char>, Seq<char>), Seq<char>> {
    match string_arg(a, "script_content"@) {
        None => Err("Missing 'script_content' for script format"@),
        Some(c) => match string_arg(a, "script_filename"@) {
            None => Err("Missing 'script_filename' for script format"@),
            Some(f) => Ok((c, f)),
        },
    }
}

/// Reads the script content and file name of a script skill.
pub fn script_arguments(params: &ToolArgs) -> (r: Result<(String, String), String>)
    ensures
        match script_parts(params.entries@) {
            Ok((c, f)) => r matches Ok((rc, rf)) && rc@ == c && rf@ == f,
            Err(e) => r matches Err(m) && m@ == e,
        },
{
    proof {
        reveal_strlit("script_content");
        reveal_strlit("script_filename");
        reveal_strlit("Missing 'script_content' for script format");
        reveal_strlit("Missing 'script_filename' for script format");
    }
    let content = match params.get_str("script_content") {
        Some(c) => c,
        None => {
            return Err(String::from_str("Missing 'script_content' for script format"));
        },
    };
    match params.get_str("script_filename") {
        Some(f) => Ok((content, f)),
        None => Err(String::from_str("Missing 'script_filename' for script format")),
    }
}

/// Most tools a dynamic skill may define.
pub const MAX_DYNAMIC_TOOLS: usize = 10;

/// The error for too many tools in a new dynamic skill, if any.
pub fn check_tool_count(n: usize) -> (r: Result<(), String>)
    ensures
        n > MAX_DYNAMIC_TOOLS ==> r is Err && r->Err_0@ == "Maximum 10 tools per dynamic skill"@,
        n <= MAX_DYNAMIC_TOOLS ==> r is Ok,
{
    proof {
        reveal_strlit("Maximum 10 tools per dynamic skill");
    }
    if n > MAX_DYNAMIC_TOOLS {
        Err(String::from_str("Maximum 10 tools per dynamic skill"))
    } else {
        Ok(())
    }
}

/// The `[[secrets]]` blocks for the declared secrets, each required, with
/// double quotes in descriptions escaped.
pub open spec fn secrets_toml(secrets: Seq<(Seq<char>, Seq<char>)>) -> Seq<char>
    decreases secrets.len(),
{
    if secrets.len() == 0 {
        Seq::empty()
    } else {
        secrets_toml(secrets.drop_last()) + "\n[[secrets]]\nname = \""@ + secrets.last().0
            + "\"\ndescription = \""@ + replace_all(secrets.last().1, seq!['"'], seq!['\\', '"'])
            + "\"\nrequired = true\n"@
    }
}

/// Names and descriptions, as character sequences.
pub open spec fn pairs_text(v: Seq<(String, String)>) -> Seq<(Seq<char>, Seq<char>)> {
    v.map_values(|p: (String, String)| (p.0@, p.1@))
}

/// The `[[secrets]]` blocks of a new skill's `skill.toml`.
pub fn format_secrets_toml(secrets: &[(String, String)]) -> (s: String)
    ensures
        s@ == secrets_toml(pairs_text(secrets@)),
{
    proof {
        reveal_strlit("\n[[secrets]]\nname = \"");
        reveal_strlit("\"\ndescription = \"");
        reveal_strlit("\"\nrequired = true\n");
    }
    let mut out: Vec<char> = Vec::new();
    let mut quote: Vec<char> = Vec::new();
    quote.push('"');
    let mut escaped: Vec<char> = Vec::new();
    escaped.push('\\');
    escaped.push('"');
    let mut i: usize = 0;
    while i < secrets.len()
        invariant
            i <= secrets@.len(),
            quote@ == seq!['"'],
            escaped@ == seq!['\\', '"'],
            out@ == secrets_toml(pairs_text(secrets@.take(i as int))),
        decreases secrets@.len() - i,
    {
        assert(pairs_text(secrets@.take(i + 1)).drop_last() =~= pairs_text(secrets@.take(i as int)));
        append_str(&mut out, "\n[[secrets]]\nname = \"");
        append_str(&mut out, secrets[i].0.as_str());
        append_str(&mut out, "\"\ndescription = \"");
        let d = chars_of(secrets[i].1.as_str());
        let e = replace_all_in(d.as_slice(), quote.as_slice(), escaped.as_slice());
        append_chars(&mut out, e.as_slice());
        append_str(&mut out, "\"\nrequired = true\n");
        assert(out@ =~= secrets_toml(pairs_text(secrets@.take(i + 1))));
        i += 1;
    }
    assert(secrets@.take(secrets@.len() as int) =~= secrets@);
    string_of(out.as_slice())
}

/// The `skill.toml` of a new custom skill.
pub open spec fn skill_toml_text(id: Seq<char>, name: Seq<char>, desc: Seq<char>, secrets: Seq<(Seq<char>, Seq<char>)>) -> Seq<char> {
    "[skill]\nid = \""@ + id + "\"\nname = \""@ + name + "\"\nversion = \"0.1.0\"\ndescription = \""@ + desc
        + "\"\nruntime = \"Native\"\ncategory = \"Custom\"\n"@ + secrets_toml(secrets)
}

/// The `skill.toml` written for a new custom skill.
pub fn skill_toml(id: &str, name: &str, desc: &str, secrets: &[(String, String)]) -> (s: String)
    ensures
        s@ == skill_toml_text(id@, name@, desc@, pairs_text(secrets@)),
{
    let mut out = chars_of("[skill]\nid = \"");
    append_str(&mut out, id);
    append_str(&mut out, "\"\nname = \"");
    append_str(&mut out, name);
    append_str(&mut out, "\"\nversion = \"0.1.0\"\ndescription = \"");
    append_str(&mut out, desc);
    append_str(&mut out, "\"\nruntime = \"Native\"\ncategory = \"Custom\"\n");
    let block = format_secrets_toml(secrets);
    append_str(&mut out, block.as_str());
    string_of(out.as_slice())
}

/// The file a new dynamic skill's config is written to: its id with dots
/// replaced by underscores, and `.json`.
pub fn dynamic_config_file_name(id: &str) -> (s: String)
    ensures
        s@ == id@.map_values(|c: char| if c == '.' { '_' } else { c }) + ".json"@,
{
    let cs = chars_of(id);
    let mut out: Vec<char> = Vec::new();
    let mut i: usize = 0;
    while i < cs.len()
        invariant
            i <= cs@.len(),
            cs@ == id@,
            out@ == cs@.take(i as int).map_values(|c: char| if c == '.' { '_' } else { c }),
        decreases cs@.len() - i,
    {
        let c = cs[i];
        out.push(if c == '.' { '_' } else { c });
        assert(out@ =~= cs@.take(i + 1).map_values(|c: char| if c == '.' { '_' } else { c }));
        i += 1;
    }
    assert(cs@.take(cs@.len() as int) =~= cs@);
    append_str(&mut out, ".json");
    string_of(out.as_slice())
}

/// The factory's own manifest: a built-in skill with full file-system
/// access.
pub fn factory_manifest() -> (m: SkillManifest)
    ensures
        m.id.0@ == "builtin.skill_factory"@,
        m.name@ == "Skill Factory"@,
        m.permissions@ == seq![Permission::FileSystem(FileSystemPermission::Full)],
{
    let mut m = builtin_manifest(
        "builtin.skill_factory",
        "Skill Factory",
        "Allows the Sovereign Entity to autonomously create, update, and manage its own skills.",
        &["factory", "meta", "code"],
    );
    let mut p: Vec<Permission> = Vec::new();
    p.push(Permission::FileSystem(FileSystemPermission::Full));
    m.permissions = p;
    m
}

} // verus!
