//! Tool-call arguments as the tool logic reads them: each JSON argument is
//! held as a string, a null, or another value with its JSON text and the
//! typed readings the tools use.
use vstd::prelude::*;
use crate::skill::SkillError;
use crate::text::{append_str, str_eq, string_of};

verus! {

/// One argument value.
#[derive(Debug)]
pub enum ArgValue {
    /// JSON `null`.
    Null,
    /// A JSON string.
    Str(String),
    /// Any other JSON value: its compact JSON text, its value when it is a
    /// non-negative integer, and its items when it is an array of strings.
    Other { json: String, uint: Option<u64>, strings: Option<Vec<String>> },
}

/// Arguments by name; names are unique.
#[derive(Debug)]
pub struct ToolArgs {
    pub entries: Vec<(String, ArgValue)>,
}

/// The value of argument `key`, if given.
pub open spec fn arg_of(entries: Seq<(String, ArgValue)>, key: Seq<char>) -> Option<ArgValue>
    decreases entries.len(),
{
    if entries.len() == 0 {
        None
    } else if entries[0].0@ == key {
        Some(entries[0].1)
    } else {
        arg_of(entries.drop_first(), key)
    }
}

/// Strict string reading: only a JSON string.
pub open spec fn string_arg(entries: Seq<(String, ArgValue)>, key: Seq<char>) -> Option<Seq<char>> {
    match arg_of(entries, key) {
        Some(ArgValue::Str(s)) => Some(s@),
        _ => None,
    }
}

/// Lenient string reading: a string as is, `null` as none, any other value
/// as its JSON text.
pub open spec fn lenient_string_arg(entries: Seq<(String, ArgValue)>, key: Seq<char>) -> Option<Seq<char>> {
    match arg_of(entries, key) {
        Some(ArgValue::Str(s)) => Some(s@),
        Some(ArgValue::Other { json, .. }) => Some(json@),
        _ => None,
    }
}

/// Non-negative integer reading.
pub open spec fn uint_arg(entries: Seq<(String, ArgValue)>, key: Seq<char>) -> Option<u64> {
    match arg_of(entries, key) {
        Some(ArgValue::Other { uint, .. }) => uint,
        _ => None,
    }
}

/// String-list reading.
pub open spec fn strings_arg(entries: Seq<(String, ArgValue)>, key: Seq<char>) -> Option<Seq<String>> {
    match arg_of(entries, key) {
        Some(ArgValue::Other { strings, .. }) => match strings {
            Some(v) => Some(v@),
            None => None,
        },
        _ => None,
    }
}

impl ToolArgs {
    fn find(&self, key: &str) -> (r: Option<usize>)
        ensures
            r is None ==> arg_of(self.entries@, key@) is None,
            r matches Some(i) ==> i < self.entries@.len() && arg_of(self.entries@, key@) == Some(self.entries@[i as int].1),
    {
        let mut i: usize = 0;
        assert(self.entries@.skip(0) =~= self.entries@);
        while i < self.entries.len()
            invariant
                i <= self.entries@.len(),
                arg_of(self.entries@, key@) == arg_of(self.entries@.skip(i as int), key@),
            decreases self.entries@.len() - i,
        {
            assert(self.entries@.skip(i as int)[0] == self.entries@[i as int]);
            if str_eq(self.entries[i].0.as_str(), key) {
                return Some(i);
            }
            assert(self.entries@.skip(i as int).drop_first() =~= self.entries@.skip(i + 1));
            i += 1;
        }
        None
    }

    /// Argument `key`, if given.
    pub fn get(&self, key: &str) -> (r: Option<&ArgValue>)
        ensures
            r matches Some(v) ==> arg_of(self.entries@, key@) == Some(*v),
            r is None ==> arg_of(self.entries@, key@) is None,
    {
        match self.find(key) {
            Some(i) => Some(&self.entries[i].1),
            None => None,
        }
    }

    /// Whether argument `key` was given (with any value, `null` included).
    pub fn has(&self, key: &str) -> (r: bool)
        ensures
            r == arg_of(self.entries@, key@) is Some,
    {
        self.find(key).is_some()
    }

    /// Argument `key` when it is a string.
    pub fn get_str(&self, key: &str) -> (r: Option<String>)
        ensures
            r matches Some(s) ==> string_arg(self.entries@, key@) == Some(s@),
            r is None ==> string_arg(self.entries@, key@) is None,
    {
        match self.find(key) {
            Some(i) => match &self.entries[i].1 {
                ArgValue::Str(s) => Some(s.clone()),
                _ => None,
            },
            None => None,
        }
    }

    /// Argument `key` read leniently as a string (see `lenient_string_arg`).
    pub fn get_string(&self, key: &str) -> (r: Option<String>)
        ensures
            r matches Some(s) ==> lenient_string_arg(self.entries@, key@) == Some(s@),
            r is None ==> lenient_string_arg(self.entries@, key@) is None,
    {
        match self.find(key) {
            Some(i) => match &self.entries[i].1 {
                ArgValue::Str(s) => Some(s.clone()),
                ArgValue::Other { json, .. } => Some(json.clone()),
                ArgValue::Null => None,
            },
            None => None,
        }
    }

    /// Argument `key` when it is a non-negative integer.
    pub fn get_u64(&self, key: &str) -> (r: Option<u64>)
        ensures
            r == uint_arg(self.entries@, key@),
    {
        match self.find(key) {
            Some(i) => match &self.entries[i].1 {
                ArgValue::Other { uint, .. } => *uint,
                _ => None,
            },
            None => None,
        }
    }

    /// Argument `key` when it is an array of strings.
    pub fn get_strings(&self, key: &str) -> (r: Option<Vec<String>>)
        ensures
            r matches Some(v) ==> strings_arg(self.entries@, key@) == Some(v@),
            r is None ==> strings_arg(self.entries@, key@) is None,
    {
        match self.find(key) {
            Some(i) => match &self.entries[i].1 {
                ArgValue::Other { strings, .. } => match strings {
                    Some(v) => Some(crate::planner::clone_strings(v)),
                    None => None,
                },
                _ => None,
            },
            None => None,
        }
    }
}

/// The error for a missing argument: `Missing '<name>'`.
pub open spec fn missing_text(name: Seq<char>) -> Seq<char> {
    "Missing '"@ + name + "'"@
}

/// The error for a missing argument.
pub fn missing(name: &str) -> (e: SkillError)
    ensures
        e matches SkillError::ToolFailed(m) && m@ == missing_text(name@),
{
    let mut v: Vec<char> = Vec::new();
    append_str(&mut v, "Missing '");
    append_str(&mut v, name);
    append_str(&mut v, "'");
    SkillError::ToolFailed(string_of(v.as_slice()))
}

/// The error for an unknown tool: `Unknown tool: <name>`.
pub open spec fn unknown_tool_text(name: Seq<char>) -> Seq<char> {
    "Unknown tool: "@ + name
}

/// The error for an unknown tool.
pub fn unknown_tool(name: &str) -> (e: SkillError)
    ensures
        e matches SkillError::ToolFailed(m) && m@ == unknown_tool_text(name@),
{
    let mut v: Vec<char> = Vec::new();
    append_str(&mut v, "Unknown tool: ");
    append_str(&mut v, name);
    SkillError::ToolFailed(string_of(v.as_slice()))
}

/// A tool offered by a built-in skill: its name, description, JSON schemas
/// of parameters and result, and whether it needs confirmation. Such tools
/// are autonomous, cost nothing and need no permission.
#[derive(Debug)]
pub struct ToolSpec {
    pub name: String,
    pub description: String,
    pub parameters_json: String,
    pub returns_json: String,
    pub requires_confirmation: bool,
}

/// Build a tool spec.
pub fn tool_spec(name: &str, description: &str, parameters_json: &str, returns_json: &str, requires_confirmation: bool) -> (t: ToolSpec)
    ensures
        t.name@ == name@,
        t.description@ == description@,
        t.parameters_json@ == parameters_json@,
        t.returns_json@ == returns_json@,
        t.requires_confirmation == requires_confirmation,
{
    ToolSpec {
        name: name.to_owned(),
        description: description.to_owned(),
        parameters_json: parameters_json.to_owned(),
        returns_json: returns_json.to_owned(),
        requires_confirmation,
    }
}

/// Tool specs in full: name, description, parameter and result schemas,
/// and whether a call needs confirmation.
pub open spec fn tool_texts(v: Seq<ToolSpec>) -> Seq<(Seq<char>, Seq<char>, Seq<char>, Seq<char>, bool)> {
    v.map_values(|t: ToolSpec| (t.name@, t.description@, t.parameters_json@, t.returns_json@, t.requires_confirmation))
}

/// Names and confirmation flags of tool specs.
pub open spec fn tool_summary(v: Seq<ToolSpec>) -> Seq<(Seq<char>, bool)> {
    v.map_values(|t: ToolSpec| (t.name@, t.requires_confirmation))
}

} // verus!
