//! Subagents the main agent can delegate to: their definitions, the
//! registry, and the delegation policy checked before a delegation.
use vstd::prelude::*;
use crate::agentic::ChatMessage;
use crate::text::{append_str, contains_any, contains_any_of, lower_chars, lowercase, str_eq, string_of, strs_view, trim, trim_chars};

verus! {

/// Which model backs a subagent.
#[derive(Debug)]
pub enum SubagentProvider {
    /// The main Ego provider.
    SameAsEgo,
    /// The local Id provider.
    SameAsId,
    /// A custom provider, by name and API key.
    Custom(String, String),
}

/// A subagent's identity, capabilities and provider.
#[derive(Debug)]
pub struct SubagentDefinition {
    pub id: String,
    pub name: String,
    pub description: String,
    /// Capability tags such as `web_search`.
    pub capabilities: Vec<String>,
    pub provider: SubagentProvider,
}

/// Registered subagents; ids are unique.
pub struct SubagentRegistry {
    definitions: Vec<SubagentDefinition>,
}

impl View for SubagentRegistry {
    type V = Seq<SubagentDefinition>;

    closed spec fn view(&self) -> Seq<SubagentDefinition> {
        self.definitions@
    }
}

/// The definitions in `s` whose id differs from `id`, in order.
pub open spec fn without_id(s: Seq<SubagentDefinition>, id: Seq<char>) -> Seq<SubagentDefinition> {
    s.filter(|d: SubagentDefinition| d.id@ != id)
}

impl SubagentRegistry {
    /// An empty registry.
    pub fn new() -> (r: Self)
        ensures
            r@.len() == 0,
    {
        SubagentRegistry { definitions: Vec::new() }
    }

    /// Register a definition, replacing one with the same id; the new one
    /// comes last.
    pub fn register(&mut self, def: SubagentDefinition)
        ensures
            final(self)@ == without_id(old(self)@, def.id@).push(def),
    {
        let ghost pred = |d: SubagentDefinition| d.id@ != def.id@;
        let mut kept: Vec<SubagentDefinition> = Vec::new();
        let mut old_defs: Vec<SubagentDefinition> = Vec::new();
        std::mem::swap(&mut old_defs, &mut self.definitions);
        let ghost orig = old_defs@;
        let n0 = old_defs.len();
        let mut rev: Vec<SubagentDefinition> = Vec::new();
        while old_defs.len() > 0
            invariant
                rev@.len() + old_defs@.len() == orig.len(),
                forall|k: int| 0 <= k < old_defs@.len() ==> old_defs@[k] == orig[k],
                forall|k: int| 0 <= k < rev@.len() ==> rev@[k] == orig[orig.len() - 1 - k],
            decreases old_defs@.len(),
        {
            let d = old_defs.pop().unwrap();
            rev.push(d);
        }
        let mut i: usize = 0;
        while rev.len() > 0
            invariant
                i <= orig.len(),
                orig.len() == n0,
                rev@.len() + i == orig.len(),
                forall|k: int| 0 <= k < rev@.len() ==> rev@[k] == orig[orig.len() - 1 - k],
                kept@ == orig.take(i as int).filter(pred),
                pred == (|d: SubagentDefinition| d.id@ != def.id@),
            decreases rev@.len(),
        {
            let d = rev.pop().unwrap();
            proof {
                assert(d == orig[i as int]);
                assert(orig.take(i + 1).drop_last() =~= orig.take(i as int));
                reveal(Seq::filter);
            }
            if !str_eq(d.id.as_str(), def.id.as_str()) {
                kept.push(d);
            }
            i += 1;
        }
        assert(orig.take(orig.len() as int) =~= orig);
        kept.push(def);
        self.definitions = kept;
    }

    /// The registered definitions.
    pub fn list(&self) -> (r: &[SubagentDefinition])
        ensures
            r@ == self@,
    {
        self.definitions.as_slice()
    }

    /// Index of the first definition with id `id`.
    pub fn find(&self, id: &str) -> (r: Option<usize>)
        ensures
            r matches Some(i) ==> i < self@.len() && self@[i as int].id@ == id@
                && forall|k: int| 0 <= k < i ==> self@[k].id@ != id@,
            r is None ==> forall|k: int| 0 <= k < self@.len() ==> self@[k].id@ != id@,
    {
        let mut i: usize = 0;
        while i < self.definitions.len()
            invariant
                i <= self.definitions@.len(),
                forall|k: int| 0 <= k < i ==> self.definitions@[k].id@ != id@,
            decreases self.definitions@.len() - i,
        {
            if str_eq(self.definitions[i].id.as_str(), id) {
                return Some(i);
            }
            i += 1;
        }
        None
    }

    /// How a delegation to the subagent `id` of the conversation `messages`
    /// is carried out: the error when no subagent has that id, the policy's
    /// refusal (see `delegation_refusal`) of the first one that has it, or
    /// the router call its provider takes (see `route_for`).
    pub fn delegation_route(&self, id: &str, messages: &[ChatMessage]) -> (r: Result<DelegationRoute, String>)
        ensures
            (forall|k: int| 0 <= k < self@.len() ==> self@[k].id@ != id@) ==> r is Err && r->Err_0@
                == "Subagent '"@ + id@ + "' not found"@,
            forall|i: int|
                0 <= i < self@.len() && (#[trigger] self@[i]).id@ == id@ && (forall|k: int| 0 <= k < i ==> self@[k].id@ != id@)
                    ==> match delegation_refusal(self@[i], messages@) {
                    Some(m) => r is Err && r->Err_0@ == m,
                    None => r == Ok::<DelegationRoute, String>(route_for(self@[i].provider)),
                },
    {
        let i = match self.find(id) {
            Some(i) => i,
            None => {
                return Err(subagent_not_found(id));
            },
        };
        let def = &self.definitions[i];
        match validate_delegation_policy(def, messages) {
            Err(e) => Err(e),
            Ok(()) => Ok(
                match &def.provider {
                    SubagentProvider::SameAsId => DelegationRoute::Route,
                    _ => DelegationRoute::RouteWithTools,
                },
            ),
        }
    }
}

/// The main router's call a delegation goes through.
#[derive(Debug, Clone, Copy, PartialEq, Eq, Structural)]
pub enum DelegationRoute {
    /// Route the messages with the tools (the Ego path).
    RouteWithTools,
    /// Route the messages alone (the Id path).
    Route,
}

/// The router call for a provider: the Id provider routes the messages
/// alone; the Ego provider, and a custom one (which falls back to the Ego),
/// route them with the tools.
pub open spec fn route_for(p: SubagentProvider) -> DelegationRoute {
    match p {
        SubagentProvider::SameAsId => DelegationRoute::Route,
        _ => DelegationRoute::RouteWithTools,
    }
}

/// The last user message, lower-cased, or empty text.
pub open spec fn last_user_prompt(messages: Seq<ChatMessage>) -> Seq<char>
    decreases messages.len(),
{
    if messages.len() == 0 {
        Seq::empty()
    } else if messages.last().role@ == "user"@ {
        lowercase(messages.last().content@)
    } else {
        last_user_prompt(messages.drop_last())
    }
}

/// Phrases of destructive intent.
pub open spec fn destructive_intents() -> Seq<Seq<char>> {
    seq!["delete"@, "wipe"@, "destroy"@, "drop table"@, "format disk"@]
}

/// `s` is `destructive_ops` in any ASCII case.
pub open spec fn is_destructive_ops(s: Seq<char>) -> bool {
    crate::builtin_skills::ci_equals(s, "destructive_ops"@, "DESTRUCTIVE_OPS"@)
}

/// The refusal of a delegation, if any: the subagent must declare
/// capabilities; the last user message must not be blank; destructive
/// intent needs the `destructive_ops` capability.
pub open spec fn delegation_refusal(def: SubagentDefinition, messages: Seq<ChatMessage>) -> Option<Seq<char>> {
    let prompt = last_user_prompt(messages);
    if def.capabilities@.len() == 0 {
        Some("Delegation policy denied for '"@ + def.id@ + "': no declared capabilities."@)
    } else if trim(prompt).len() == 0 {
        Some("Delegation policy denied for '"@ + def.id@ + "': empty user message."@)
    } else if contains_any(prompt, destructive_intents())
        && !(exists|k: int| 0 <= k < def.capabilities@.len() && is_destructive_ops(#[trigger] def.capabilities@[k]@)) {
        Some("Delegation policy denied for '"@ + def.id@ + "': destructive intent requires 'destructive_ops' capability."@)
    } else {
        None
    }
}

fn last_user_prompt_of(messages: &[ChatMessage]) -> (r: Vec<char>)
    ensures
        r@ == last_user_prompt(messages@),
{
    proof {
        reveal_strlit("user");
    }
    let mut k: usize = messages.len();
    assert(messages@.take(k as int) =~= messages@);
    while k > 0
        invariant
            k <= messages@.len(),
            last_user_prompt(messages@) == last_user_prompt(messages@.take(k as int)),
        decreases k,
    {
        assert(messages@.take(k as int).drop_last() =~= messages@.take(k - 1));
        if str_eq(messages[k - 1].role.as_str(), "user") {
            return lower_chars(messages[k - 1].content.as_str());
        }
        k -= 1;
    }
    Vec::new()
}

fn denial(id: &str, reason: &str) -> (s: String)
    ensures
        s@ == "Delegation policy denied for '"@ + id@ + reason@,
{
    let mut v: Vec<char> = Vec::new();
    append_str(&mut v, "Delegation policy denied for '");
    append_str(&mut v, id);
    append_str(&mut v, reason);
    string_of(v.as_slice())
}

/// Check a delegation to `def` of a conversation (see
/// `delegation_refusal`).
pub fn validate_delegation_policy(def: &SubagentDefinition, messages: &[ChatMessage]) -> (r: Result<(), String>)
    ensures
        delegation_refusal(*def, messages@) matches Some(m) ==> r matches Err(e) && e@ == m,
        delegation_refusal(*def, messages@) is None ==> r is Ok,
{
    if def.capabilities.len() == 0 {
        return Err(denial(def.id.as_str(), "': no declared capabilities."));
    }
    let prompt = last_user_prompt_of(messages);
    let trimmed = trim_chars(prompt.as_slice());
    if trimmed.len() == 0 {
        return Err(denial(def.id.as_str(), "': empty user message."));
    }
    let intents: [&str; 5] = ["delete", "wipe", "destroy", "drop table", "format disk"];
    let destructive = contains_any_of(prompt.as_slice(), &intents);
    assert(strs_view(intents@) =~= destructive_intents());
    if destructive {
        let mut allows = false;
        let mut k: usize = 0;
        while k < def.capabilities.len()
            invariant
                k <= def.capabilities@.len(),
                allows == (exists|q: int| 0 <= q < k && is_destructive_ops(#[trigger] def.capabilities@[q]@)),
            decreases def.capabilities@.len() - k,
        {
            let cs = crate::text::chars_of(def.capabilities[k].as_str());
            proof {
                reveal_strlit("destructive_ops");
                reveal_strlit("DESTRUCTIVE_OPS");
            }
            if crate::builtin_skills::ci_equals_pub(cs.as_slice(), "destructive_ops", "DESTRUCTIVE_OPS") {
                allows = true;
            }
            k += 1;
        }
        if !allows {
            return Err(denial(def.id.as_str(), "': destructive intent requires 'destructive_ops' capability."));
        }
    }
    Ok(())
}

/// The error when no registered subagent has the id `id`.
pub fn subagent_not_found(id: &str) -> (s: String)
    ensures
        s@ == "Subagent '"@ + id@ + "' not found"@,
{
    let mut v: Vec<char> = Vec::new();
    append_str(&mut v, "Subagent '");
    append_str(&mut v, id);
    append_str(&mut v, "' not found");
    string_of(v.as_slice())
}

} // verus!
