//! Id/Ego routing decisions: which provider serves a message, the order in
//! which providers are tried, and the diagnostics the router reports. The
//! providers themselves are the host's.
use vstd::prelude::*;
use crate::text::{contains_any, contains_any_of, lower_chars, lowercase, strs_view};

verus! {

/// Routine or complex request.
#[derive(Debug, Clone, Copy, PartialEq, Eq, Structural)]
pub enum RouteDecision {
    Routine,
    Complex,
}

/// Outcome of a safety check.
#[derive(Debug, Clone, PartialEq, Eq)]
pub enum SuperegoResult {
    Allow,
    Deny(String),
}

/// Verdict of the conscience monitor.
#[derive(Debug, Clone, PartialEq, Eq)]
pub enum ConscienceVerdict {
    Clear,
    Veto(String),
    TrustConcern(String),
}

/// The provider that serves a request.
#[derive(Debug, Clone, Copy, PartialEq, Eq, Structural)]
pub enum FastPathTarget {
    /// The local model.
    Id,
    /// The cloud or CLI model.
    Ego,
}

impl FastPathTarget {
    /// `Id` or `Ego`.
    pub fn to_string(&self) -> (s: String)
        ensures
            *self is Id ==> s@ == "Id"@,
            *self is Ego ==> s@ == "Ego"@,
    {
        match self {
            FastPathTarget::Id => "Id".to_owned(),
            FastPathTarget::Ego => "Ego".to_owned(),
        }
    }
}

/// The cloud or CLI provider in the Ego slot.
#[derive(Debug, Clone, Copy, PartialEq, Eq, Structural)]
pub enum EgoProvider {
    OpenAi,
    Anthropic,
    Perplexity,
    Xai,
    Google,
    ClaudeCli,
    GeminiCli,
    CodexCli,
    GrokCli,
}

/// Name of a provider.
pub open spec fn ego_name(p: EgoProvider) -> Seq<char> {
    match p {
        EgoProvider::OpenAi => "openai"@,
        EgoProvider::Anthropic => "anthropic"@,
        EgoProvider::Perplexity => "perplexity"@,
        EgoProvider::Xai => "xai"@,
        EgoProvider::Google => "google"@,
        EgoProvider::ClaudeCli => "anthropic-cli"@,
        EgoProvider::GeminiCli => "gemini-cli"@,
        EgoProvider::CodexCli => "codex-cli"@,
        EgoProvider::GrokCli => "grok-cli"@,
    }
}

impl EgoProvider {
    /// The provider's name, e.g. `gemini-cli`.
    pub fn to_string(&self) -> (s: String)
        ensures
            s@ == ego_name(*self),
    {
        match self {
            EgoProvider::OpenAi => "openai".to_owned(),
            EgoProvider::Anthropic => "anthropic".to_owned(),
            EgoProvider::Perplexity => "perplexity".to_owned(),
            EgoProvider::Xai => "xai".to_owned(),
            EgoProvider::Google => "google".to_owned(),
            EgoProvider::ClaudeCli => "anthropic-cli".to_owned(),
            EgoProvider::GeminiCli => "gemini-cli".to_owned(),
            EgoProvider::CodexCli => "codex-cli".to_owned(),
            EgoProvider::GrokCli => "grok-cli".to_owned(),
        }
    }
}

/// How the router works.
#[derive(Debug, Clone, Copy, PartialEq, Eq, Structural)]
pub enum RoutingMode {
    /// Ego serves user requests; Id is the failsafe.
    EgoPrimary,
    /// Ego is a CLI provider that orchestrates.
    CliOrchestrator,
}

/// Name of a routing mode in diagnostics.
pub open spec fn mode_name(m: RoutingMode) -> Seq<char> {
    match m {
        RoutingMode::EgoPrimary => "egoprimary"@,
        RoutingMode::CliOrchestrator => "cliorchestrator"@,
    }
}

/// What the router is made of.
#[derive(Debug, Clone, Copy)]
pub struct RouterShape {
    /// An Ego provider is configured.
    pub has_ego: bool,
    pub ego_provider: Option<EgoProvider>,
    /// The Id provider is a local HTTP server.
    pub has_local_http: bool,
    pub mode: RoutingMode,
}

/// Result of the fast-path evaluation.
#[derive(Debug, Clone)]
pub struct FastPathResult {
    pub target: FastPathTarget,
    pub id_instinct: u8,
    pub ego_feasible: bool,
    pub context_aligned: bool,
    pub conscience_spawned: bool,
}

/// Status snapshot of the router.
#[derive(Debug)]
pub struct RouterStatusInfo {
    pub has_ego: bool,
    pub ego_provider: Option<String>,
    pub has_local_http: bool,
    pub mode: RoutingMode,
}

/// What the router would do for a message.
#[derive(Debug)]
pub struct RoutingDiagnosis {
    pub mode: String,
    pub target: String,
    pub selected_model: Option<String>,
    pub selection_reason: String,
    pub ego_provider: Option<String>,
    pub has_local_llm: bool,
}

/// The main path's target: Ego whenever one is configured.
pub fn target_for_mode(shape: &RouterShape) -> (t: FastPathTarget)
    ensures
        t == (if shape.has_ego { FastPathTarget::Ego } else { FastPathTarget::Id }),
{
    if shape.has_ego {
        FastPathTarget::Ego
    } else {
        FastPathTarget::Id
    }
}

/// Words that suggest the request needs outside context.
pub open spec fn external_context_words() -> Seq<Seq<char>> {
    seq![
        "search"@, "web"@, "http"@, "api"@, "fetch"@, "docs"@, "documentation"@, "latest"@, "current"@,
        "today"@, "news"@, "url"@, "crawl"@,
    ]
}

/// Whether the lower-cased text holds a word that suggests outside context.
pub fn has_external_context_signal(text: &str) -> (r: bool)
    ensures
        r == contains_any(lowercase(text@), external_context_words()),
{
    let lower = lower_chars(text);
    let words: [&str; 13] = [
        "search", "web", "http", "api", "fetch", "docs", "documentation", "latest", "current",
        "today", "news", "url", "crawl",
    ];
    let r = contains_any_of(lower.as_slice(), &words);
    assert(strs_view(words@) =~= external_context_words());
    r
}

/// Fast-path classification: Ego when available, Id otherwise.
pub fn fast_path_classify(shape: &RouterShape, user_message: &str) -> (r: FastPathResult)
    ensures
        r.target == (if shape.has_ego { FastPathTarget::Ego } else { FastPathTarget::Id }),
        r.ego_feasible == shape.has_ego,
        r.context_aligned == contains_any(lowercase(user_message@), external_context_words()),
        r.id_instinct == 0,
        !r.conscience_spawned,
{
    let context_aligned = has_external_context_signal(user_message);
    FastPathResult {
        target: target_for_mode(shape),
        id_instinct: 0,
        ego_feasible: shape.has_ego,
        context_aligned,
        conscience_spawned: false,
    }
}

fn provider_name(p: &Option<EgoProvider>) -> (r: Option<String>)
    ensures
        r matches Some(s) ==> *p matches Some(q) && s@ == ego_name(q),
        r is None ==> *p is None,
{
    match p {
        Some(q) => Some(q.to_string()),
        None => None,
    }
}

/// A status snapshot.
pub fn status(shape: &RouterShape) -> (s: RouterStatusInfo)
    ensures
        s.has_ego == shape.has_ego,
        s.has_local_http == shape.has_local_http,
        s.mode == shape.mode,
        s.ego_provider matches Some(n) ==> shape.ego_provider matches Some(q) && n@ == ego_name(q),
        s.ego_provider is None ==> shape.ego_provider is None,
{
    RouterStatusInfo {
        has_ego: shape.has_ego,
        ego_provider: provider_name(&shape.ego_provider),
        has_local_http: shape.has_local_http,
        mode: shape.mode,
    }
}

/// The mode's name in diagnostics.
pub fn routing_mode_str(mode: RoutingMode) -> (s: String)
    ensures
        s@ == mode_name(mode),
{
    match mode {
        RoutingMode::EgoPrimary => "egoprimary".to_owned(),
        RoutingMode::CliOrchestrator => "cliorchestrator".to_owned(),
    }
}

/// What the router would do for a message, without calling a model.
pub fn diagnose(shape: &RouterShape, user_message: &str) -> (d: RoutingDiagnosis)
    ensures
        d.mode@ == mode_name(shape.mode),
        d.target@ == (if shape.has_ego { "ego"@ } else { "id"@ }),
        d.selected_model is None,
        d.selection_reason@ == (if shape.mode is CliOrchestrator { "cli_orchestrator"@ } else { "ego_primary"@ }),
        d.ego_provider matches Some(n) ==> shape.ego_provider matches Some(q) && n@ == ego_name(q),
        d.ego_provider is None ==> shape.ego_provider is None,
        d.has_local_llm == shape.has_local_http,
{
    let target = match target_for_mode(shape) {
        FastPathTarget::Ego => "ego".to_owned(),
        FastPathTarget::Id => "id".to_owned(),
    };
    let selection_reason = match shape.mode {
        RoutingMode::CliOrchestrator => "cli_orchestrator".to_owned(),
        _ => "ego_primary".to_owned(),
    };
    RoutingDiagnosis {
        mode: routing_mode_str(shape.mode),
        target,
        selected_model: None,
        selection_reason,
        ego_provider: provider_name(&shape.ego_provider),
        has_local_llm: shape.has_local_http,
    }
}

/// Label of the Id provider in traces.
pub fn id_label(shape: &RouterShape) -> (s: &'static str)
    ensures
        shape.has_local_http ==> s@ == "id(local_http)"@,
        !shape.has_local_http ==> s@ == "id(candle_stub)"@,
{
    if shape.has_local_http {
        "id(local_http)"
    } else {
        "id(candle_stub)"
    }
}

/// Label of the Ego provider in traces: its name, or `ego`.
pub fn ego_label(shape: &RouterShape) -> (s: String)
    ensures
        shape.ego_provider matches Some(q) ==> s@ == ego_name(q),
        shape.ego_provider is None ==> s@ == "ego"@,
{
    match &shape.ego_provider {
        Some(q) => q.to_string(),
        None => "ego".to_owned(),
    }
}

/// The providers to try, in order: the first choice and the one to fall
/// back to when it fails. With Ego as target and available, Ego then Id;
/// otherwise Id, then Ego if there is one.
pub open spec fn attempt_order(target: FastPathTarget, has_ego: bool) -> (FastPathTarget, Option<FastPathTarget>) {
    if target is Ego && has_ego {
        (FastPathTarget::Ego, Some(FastPathTarget::Id))
    } else if has_ego {
        (FastPathTarget::Id, Some(FastPathTarget::Ego))
    } else {
        (FastPathTarget::Id, None)
    }
}

/// The order in which providers are tried (see `attempt_order`).
pub fn plan_attempts(target: FastPathTarget, shape: &RouterShape) -> (r: (FastPathTarget, Option<FastPathTarget>))
    ensures
        r == attempt_order(target, shape.has_ego),
{
    match target {
        FastPathTarget::Ego => if shape.has_ego {
            (FastPathTarget::Ego, Some(FastPathTarget::Id))
        } else {
            (FastPathTarget::Id, None)
        },
        FastPathTarget::Id => if shape.has_ego {
            (FastPathTarget::Id, Some(FastPathTarget::Ego))
        } else {
            (FastPathTarget::Id, None)
        },
    }
}

/// The target of a unified routing call: Id when forced, else the main
/// path's target; a model override only applies when not forced.
pub fn unified_target(shape: &RouterShape, force_id_only: bool, model_override: Option<String>) -> (r: (FastPathTarget, Option<String>))
    ensures
        force_id_only ==> r.0 == FastPathTarget::Id && r.1 is None,
        !force_id_only ==> r.0 == (if shape.has_ego { FastPathTarget::Ego } else { FastPathTarget::Id }) && r.1 == model_override,
{
    if force_id_only {
        (FastPathTarget::Id, None)
    } else {
        (target_for_mode(shape), model_override)
    }
}

} // verus!
