//! Model Context Protocol servers as skills: how a server's tools are
//! described, where requests go, and what a tool call's result says.
use vstd::prelude::*;
use crate::manifest::{CapabilityDescriptor, NetworkPermission, Permission, SkillId, SkillManifest};
use crate::text::{append_joined, chars_of, joined, str_eq, string_of, strings_view, sub_chars, append_str};
use crate::tool_args::ToolSpec;
use std::collections::HashMap;

verus! {

/// A tool as an MCP server lists it; the input schema is JSON text.
#[derive(Debug, Clone)]
pub struct McpTool {
    pub name: String,
    pub description: Option<String>,
    pub title: Option<String>,
    pub input_schema_json: Option<String>,
}

/// Schema used for a tool that declares none.
pub open spec fn default_schema() -> Seq<char> {
    "{\"type\":\"object\",\"properties\":{}}"@
}

/// How an MCP tool is offered: its description, else its title, else its
/// name describes it; its schema or an empty object schema; it returns an
/// object, needs confirmation and full network access.
pub fn mcp_tool_spec(t: &McpTool) -> (s: ToolSpec)
    ensures
        s.name@ == t.name@,
        s.description@ == (match t.description {
            Some(d) => d@,
            None => match t.title {
                Some(x) => x@,
                None => t.name@,
            },
        }),
        s.parameters_json@ == (match t.input_schema_json {
            Some(j) => j@,
            None => default_schema(),
        }),
        s.returns_json@ == "{\"type\":\"object\"}"@,
        s.requires_confirmation,
{
    proof {
        reveal_strlit("{\"type\":\"object\",\"properties\":{}}");
        reveal_strlit("{\"type\":\"object\"}");
    }
    let description = match &t.description {
        Some(d) => d.clone(),
        None => match &t.title {
            Some(x) => x.clone(),
            None => t.name.clone(),
        },
    };
    let parameters_json = match &t.input_schema_json {
        Some(j) => j.clone(),
        None => String::from_str("{\"type\":\"object\",\"properties\":{}}"),
    };
    ToolSpec {
        name: t.name.clone(),
        description,
        parameters_json,
        returns_json: String::from_str("{\"type\":\"object\"}"),
        requires_confirmation: true,
    }
}

/// The permission every MCP tool needs.
pub fn mcp_tool_permissions() -> (p: Vec<Permission>)
    ensures
        p@ == seq![Permission::Network(NetworkPermission::Full)],
{
    let mut p: Vec<Permission> = Vec::new();
    p.push(Permission::Network(NetworkPermission::Full));
    p
}

/// `s` without trailing `/` characters.
pub open spec fn trim_slashes(s: Seq<char>) -> Seq<char>
    decreases s.len(),
{
    if s.len() > 0 && s.last() == '/' {
        trim_slashes(s.drop_last())
    } else {
        s
    }
}

/// Where JSON-RPC requests are posted: the base URL with exactly one
/// trailing `/`.
pub fn rpc_url(base_url: &str) -> (u: String)
    ensures
        u@ == trim_slashes(base_url@) + seq!['/'],
{
    let v = chars_of(base_url);
    let mut end: usize = v.len();
    assert(v@.take(end as int) =~= v@);
    while end > 0 && v[end - 1] == '/'
        invariant
            end <= v@.len(),
            trim_slashes(v@) == trim_slashes(v@.take(end as int)),
        decreases end,
    {
        assert(v@.take(end as int).drop_last() =~= v@.take(end - 1));
        end -= 1;
    }
    let mut r = sub_chars(v.as_slice(), 0, end);
    assert(r@ =~= v@.take(end as int));
    r.push('/');
    string_of(r.as_slice())
}

/// One content item of a tool call's result: its type and its text.
#[derive(Debug, Clone)]
pub struct ToolResultContent {
    pub content_type: String,
    pub text: Option<String>,
}

/// The texts of the items of type `text`, in order.
pub open spec fn text_items(c: Seq<ToolResultContent>) -> Seq<Seq<char>>
    decreases c.len(),
{
    if c.len() == 0 {
        Seq::empty()
    } else {
        let rest = text_items(c.drop_last());
        if c.last().content_type@ == "text"@ {
            match c.last().text {
                Some(t) => rest.push(t@),
                None => rest,
            }
        } else {
            rest
        }
    }
}

/// Index of the first item of type `text`.
pub open spec fn first_text_item(c: Seq<ToolResultContent>) -> Option<int>
    decreases c.len(),
{
    if c.len() == 0 {
        None
    } else {
        match first_text_item(c.drop_last()) {
            Some(i) => Some(i),
            None => if c.last().content_type@ == "text"@ {
                Some(c.len() - 1)
            } else {
                None
            },
        }
    }
}

/// What a tool call's result says: for an error, the text of the first
/// item of type `text` (`Unknown error` when there is none or it has no
/// text); otherwise the texts of the `text` items joined by newlines.
pub open spec fn call_outcome(c: Seq<ToolResultContent>, is_error: bool) -> Result<Seq<char>, Seq<char>> {
    if is_error {
        Err(match first_text_item(c) {
            Some(i) => match c[i].text {
                Some(t) => t@,
                None => "Unknown error"@,
            },
            None => "Unknown error"@,
        })
    } else {
        Ok(joined(text_items(c), seq!['\n']))
    }
}

/// The text of a tool call's result, or its error (see `call_outcome`).
pub fn tool_call_outcome(content: &Vec<ToolResultContent>, is_error: bool) -> (r: Result<String, String>)
    ensures
        match call_outcome(content@, is_error) {
            Ok(t) => r matches Ok(s) && s@ == t,
            Err(e) => r matches Err(s) && s@ == e,
        },
{
    proof {
        reveal_strlit("text");
        reveal_strlit("Unknown error");
        reveal_strlit("\n");
    }
    if is_error {
        let mut i: usize = 0;
        while i < content.len()
            invariant
                is_error,
                i <= content@.len(),
                first_text_item(content@.take(i as int)) is None,
            decreases content@.len() - i,
        {
            assert(content@.take(i + 1).drop_last() =~= content@.take(i as int));
            if str_eq(content[i].content_type.as_str(), "text") {
                proof {
                    assert(content@.take(i + 1).last() == content@[i as int]);
                    assert(first_text_item(content@.take(i + 1)) == Some(i as int));
                    lemma_first_text_prefix(content@, i as int + 1);
                }
                let msg = match &content[i].text {
                    Some(t) => t.clone(),
                    None => String::from_str("Unknown error"),
                };
                return Err(msg);
            }
            i += 1;
        }
        assert(content@.take(content@.len() as int) =~= content@);
        return Err(String::from_str("Unknown error"));
    }
    let mut texts: Vec<String> = Vec::new();
    let mut i: usize = 0;
    while i < content.len()
        invariant
            i <= content@.len(),
            strings_view(texts@) == text_items(content@.take(i as int)),
        decreases content@.len() - i,
    {
        assert(content@.take(i + 1).drop_last() =~= content@.take(i as int));
        if str_eq(content[i].content_type.as_str(), "text") {
            match &content[i].text {
                Some(t) => {
                    texts.push(t.clone());
                    assert(strings_view(texts@) =~= text_items(content@.take(i + 1)));
                },
                None => {},
            }
        }
        i += 1;
    }
    assert(content@.take(content@.len() as int) =~= content@);
    let mut out: Vec<char> = Vec::new();
    append_joined(&mut out, texts.as_slice(), "\n");
    assert("\n"@ =~= seq!['\n']);
    assert(out@ =~= joined(text_items(content@), seq!['\n']));
    Ok(string_of(out.as_slice()))
}

proof fn lemma_first_text_prefix(c: Seq<ToolResultContent>, n: int)
    requires
        0 <= n <= c.len(),
        first_text_item(c.take(n)) is Some,
    ensures
        first_text_item(c) == first_text_item(c.take(n)),
    decreases c.len() - n,
{
    if n < c.len() {
        assert(c.take(n + 1).drop_last() =~= c.take(n));
        lemma_first_text_prefix(c, n + 1);
    } else {
        assert(c.take(n) =~= c);
    }
}

/// The manifest of an MCP server's skill.
pub fn mcp_manifest(server_id: &str, server_name: &str) -> (m: SkillManifest)
    ensures
        m.id.0@ == server_id@,
        m.name@ == server_name@,
        m.version@ == "1.0.0"@,
        m.description@ == "MCP server: "@ + server_name@,
        m.license is None,
        m.category@ == "MCP"@,
        strings_view(m.keywords@) == seq!["mcp"@],
        m.runtime@ == "MCP"@,
        m.min_abigail_version@ == "0.1.0"@,
        strings_view(m.platforms@) == seq!["All"@],
        m.capabilities@.len() == 1,
        m.capabilities@[0].capability_type@ == "McpClient"@,
        m.capabilities@[0].version@ == "1.0"@,
        m.permissions@ == seq![Permission::Network(NetworkPermission::Full)],
        m.secrets@.len() == 0,
{
    proof {
        reveal_strlit("1.0.0");
        reveal_strlit("MCP server: ");
        reveal_strlit("MCP");
        reveal_strlit("mcp");
        reveal_strlit("0.1.0");
        reveal_strlit("All");
        reveal_strlit("McpClient");
        reveal_strlit("1.0");
    }
    let mut d = chars_of("MCP server: ");
    append_str(&mut d, server_name);
    let mut keywords: Vec<String> = Vec::new();
    keywords.push(String::from_str("mcp"));
    let mut platforms: Vec<String> = Vec::new();
    platforms.push(String::from_str("All"));
    let mut capabilities: Vec<CapabilityDescriptor> = Vec::new();
    capabilities.push(CapabilityDescriptor {
        capability_type: String::from_str("McpClient"),
        version: String::from_str("1.0"),
    });
    assert(strings_view(keywords@) =~= seq!["mcp"@]);
    assert(strings_view(platforms@) =~= seq!["All"@]);
    SkillManifest {
        id: SkillId(String::from_str(server_id)),
        name: String::from_str(server_name),
        version: String::from_str("1.0.0"),
        description: string_of(d.as_slice()),
        license: None,
        category: String::from_str("MCP"),
        keywords,
        runtime: String::from_str("MCP"),
        min_abigail_version: String::from_str("0.1.0"),
        platforms,
        capabilities,
        permissions: mcp_tool_permissions(),
        secrets: Vec::new(),
        config_defaults: HashMap::new(),
    }
}

} // verus!
