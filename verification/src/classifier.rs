//! Prompt complexity classifier for multi-tier routing.
//!
//! Layer 1 is a deterministic five-factor decision matrix. Each factor is a
//! score in 0..=100; the composite is the weighted sum with weights
//! 0.30 / 0.15 / 0.15 / 0.20 / 0.20, rounded half up and capped at 100.
//! The tier comes from the detected signals (strongest signal wins) and the
//! routing target from the composite.
use vstd::prelude::*;
use crate::text::{
    chars_of, contains_any, contains_any_of, contains_char, contains_str, count_any_of,
    count_char, count_char_in, count_contained, count_words, eq_chars, has_char, has_prefix,
    lower_chars, lowercase, seq_contains, starts_with_str, strs_view, trim, trim_chars,
    word_count, append_str, append_chars, u64_to_decimal, decimal, string_of,
};

verus! {

// ── Routing target ───────────────────────────────────────────────────

/// Which subsystem should handle a request.
#[derive(Debug, Clone, Copy, PartialEq, Eq, Structural)]
pub enum RoutingTarget {
    /// Local model: fast, private, lower capability.
    Id,
    /// Cloud model: higher capability, higher latency and cost.
    Ego,
    /// Safety-critical path that requires ethical review first.
    Superego,
}

/// Display name of a routing target.
pub open spec fn routing_target_name(t: RoutingTarget) -> Seq<char> {
    match t {
        RoutingTarget::Id => "Id"@,
        RoutingTarget::Ego => "Ego"@,
        RoutingTarget::Superego => "Superego"@,
    }
}

impl RoutingTarget {
    /// The display name (`"Id"`, `"Ego"` or `"Superego"`).
    pub fn to_string(&self) -> (s: String)
        ensures
            s@ == routing_target_name(*self),
    {
        match self {
            RoutingTarget::Id => "Id".to_owned(),
            RoutingTarget::Ego => "Ego".to_owned(),
            RoutingTarget::Superego => "Superego".to_owned(),
        }
    }
}

// ── Prompt tier ──────────────────────────────────────────────────────

/// Prompt complexity tier.
#[derive(Debug, Clone, Copy, PartialEq, Eq, Structural)]
pub enum PromptTier {
    /// Quick lookups, greetings, simple commands.
    T1Fast,
    /// Standard conversation, summaries, moderate reasoning.
    T2Standard,
    /// Complex analysis, multi-step reasoning, creative writing.
    T3Pro,
    /// Code generation, math proofs, specialised domains.
    T4Specialist,
}

/// Display name of a tier.
pub open spec fn tier_name(t: PromptTier) -> Seq<char> {
    match t {
        PromptTier::T1Fast => "T1Fast"@,
        PromptTier::T2Standard => "T2Standard"@,
        PromptTier::T3Pro => "T3Pro"@,
        PromptTier::T4Specialist => "T4Specialist"@,
    }
}

/// Model tier used in configuration.
#[derive(Debug, Clone, Copy, PartialEq, Eq, Structural)]
pub enum ModelTier {
    Fast,
    Standard,
    Pro,
}

/// The configured model tier that serves a prompt tier.
pub open spec fn model_tier_of(t: PromptTier) -> ModelTier {
    match t {
        PromptTier::T1Fast => ModelTier::Fast,
        PromptTier::T2Standard => ModelTier::Standard,
        PromptTier::T3Pro | PromptTier::T4Specialist => ModelTier::Pro,
    }
}

impl PromptTier {
    /// The display name (`"T1Fast"` .. `"T4Specialist"`).
    pub fn to_string(&self) -> (s: String)
        ensures
            s@ == tier_name(*self),
    {
        match self {
            PromptTier::T1Fast => "T1Fast".to_owned(),
            PromptTier::T2Standard => "T2Standard".to_owned(),
            PromptTier::T3Pro => "T3Pro".to_owned(),
            PromptTier::T4Specialist => "T4Specialist".to_owned(),
        }
    }

    /// The configured model tier: T1 → Fast, T2 → Standard, T3 and T4 → Pro.
    pub fn model_tier(&self) -> (m: ModelTier)
        ensures
            m == model_tier_of(*self),
    {
        match self {
            PromptTier::T1Fast => ModelTier::Fast,
            PromptTier::T2Standard => ModelTier::Standard,
            PromptTier::T3Pro | PromptTier::T4Specialist => ModelTier::Pro,
        }
    }
}

// ── Decision matrix ──────────────────────────────────────────────────

/// Neutral user preference.
pub const DEFAULT_USER_PREFERENCE: u8 = 50;

/// Five-factor decision matrix. Each factor is a score; higher means the
/// request needs a more capable model.
#[derive(Debug, Clone, Copy, PartialEq, Eq, Structural)]
pub struct DecisionMatrix {
    /// Structural complexity (word count, nesting, multi-step).
    pub complexity: u8,
    /// Ethical sensitivity (PII, medical, legal, financial topics).
    pub ethical_weight: u8,
    /// How long the user can wait.
    pub latency_tolerance: u8,
    /// How many tools the request likely needs.
    pub tool_count: u8,
    /// Explicit routing preference; 50 is neutral.
    pub user_preference: u8,
}

/// Weighted sum of the factors, in hundredths.
pub open spec fn weighted_hundredths(m: DecisionMatrix) -> nat {
    (30 * m.complexity + 15 * m.ethical_weight + 15 * m.latency_tolerance + 20 * m.tool_count
        + 20 * m.user_preference) as nat
}

/// Composite score: the weighted sum rounded half up, capped at 100.
pub open spec fn composite_spec(m: DecisionMatrix) -> u8 {
    let r = (weighted_hundredths(m) + 50) / 100;
    if r > 100 {
        100u8
    } else {
        r as u8
    }
}

/// Tier advised by a composite score alone.
pub open spec fn tier_for_score(score: u8) -> PromptTier {
    if score <= 20 {
        PromptTier::T1Fast
    } else if score <= 45 {
        PromptTier::T2Standard
    } else if score <= 70 {
        PromptTier::T3Pro
    } else if score <= 100 {
        PromptTier::T4Specialist
    } else {
        PromptTier::T2Standard
    }
}

/// Routing target for a composite score: up to 30 stays local.
pub open spec fn target_for_score(score: u8) -> RoutingTarget {
    if score <= 30 {
        RoutingTarget::Id
    } else {
        RoutingTarget::Ego
    }
}

/// Routing target of a matrix: ethical weight of 80 or more asks for review.
pub open spec fn routing_target_spec(m: DecisionMatrix) -> RoutingTarget {
    if m.ethical_weight >= 80 {
        RoutingTarget::Superego
    } else {
        target_for_score(composite_spec(m))
    }
}

/// The text shown for a matrix.
pub open spec fn matrix_text(m: DecisionMatrix) -> Seq<char> {
    "score="@ + decimal(composite_spec(m) as nat) + " [complexity="@ + decimal(m.complexity as nat)
        + ", ethical="@ + decimal(m.ethical_weight as nat) + ", latency="@ + decimal(
        m.latency_tolerance as nat,
    ) + ", tools="@ + decimal(m.tool_count as nat) + ", preference="@ + decimal(
        m.user_preference as nat,
    ) + "]"@
}

impl DecisionMatrix {
    /// Weighted composite score (0..=100) with the default weights.
    pub fn composite(&self) -> (r: u8)
        ensures
            r == composite_spec(*self),
            r <= 100,
    {
        let x: u32 = 30 * (self.complexity as u32) + 15 * (self.ethical_weight as u32) + 15 * (
        self.latency_tolerance as u32) + 20 * (self.tool_count as u32) + 20 * (
        self.user_preference as u32);
        let r = (x + 50) / 100;
        if r > 100 {
            100
        } else {
            r as u8
        }
    }

    /// Advisory tier from the composite score alone.
    pub fn advisory_tier(&self) -> (t: PromptTier)
        ensures
            t == tier_for_score(composite_spec(*self)),
    {
        let c = self.composite();
        if c <= 20 {
            PromptTier::T1Fast
        } else if c <= 45 {
            PromptTier::T2Standard
        } else if c <= 70 {
            PromptTier::T3Pro
        } else if c <= 100 {
            PromptTier::T4Specialist
        } else {
            PromptTier::T2Standard
        }
    }

    /// Routing target: Superego when ethical weight ≥ 80, else by composite.
    pub fn to_routing_target(&self) -> (t: RoutingTarget)
        ensures
            t == routing_target_spec(*self),
    {
        if self.ethical_weight >= 80 {
            return RoutingTarget::Superego;
        }
        score_to_routing_target(self.composite())
    }

    /// `score=N [complexity=.., ethical=.., latency=.., tools=.., preference=..]`.
    pub fn to_string(&self) -> (s: String)
        ensures
            s@ == matrix_text(*self),
    {
        let mut v: Vec<char> = Vec::new();
        append_str(&mut v, "score=");
        let d = u64_to_decimal(self.composite() as u64);
        append_chars(&mut v, d.as_slice());
        append_str(&mut v, " [complexity=");
        let d = u64_to_decimal(self.complexity as u64);
        append_chars(&mut v, d.as_slice());
        append_str(&mut v, ", ethical=");
        let d = u64_to_decimal(self.ethical_weight as u64);
        append_chars(&mut v, d.as_slice());
        append_str(&mut v, ", latency=");
        let d = u64_to_decimal(self.latency_tolerance as u64);
        append_chars(&mut v, d.as_slice());
        append_str(&mut v, ", tools=");
        let d = u64_to_decimal(self.tool_count as u64);
        append_chars(&mut v, d.as_slice());
        append_str(&mut v, ", preference=");
        let d = u64_to_decimal(self.user_preference as u64);
        append_chars(&mut v, d.as_slice());
        append_str(&mut v, "]");
        string_of(v.as_slice())
    }
}

/// Composite score → routing target (≤ 30 → Id, otherwise Ego).
pub fn score_to_routing_target(score: u8) -> (t: RoutingTarget)
    ensures
        t == target_for_score(score),
{
    if score <= 30 {
        RoutingTarget::Id
    } else {
        RoutingTarget::Ego
    }
}

// ── Pattern lists ────────────────────────────────────────────────────

/// Whole-message greetings and acknowledgements.
pub open spec fn greeting_words() -> Seq<Seq<char>> {
    seq!["hi"@, "hello"@, "hey"@, "yo"@, "sup"@, "howdy"@, "greetings"@, "good morning"@, "good afternoon"@, "good evening"@, "good night"@, "thanks"@, "thank you"@, "bye"@, "goodbye"@, "ok"@, "okay"@, "yes"@, "no"@, "sure"@, "yep"@, "nope"@]
}

fn greeting_list() -> (v: Vec<&'static str>)
    ensures
        strs_view(v@) == greeting_words(),
{
    let v = vec!["hi", "hello", "hey", "yo", "sup", "howdy", "greetings", "good morning", "good afternoon", "good evening", "good night", "thanks", "thank you", "bye", "goodbye", "ok", "okay", "yes", "no", "sure", "yep", "nope"];
    assert(strs_view(v@) =~= greeting_words());
    v
}

/// Time and date questions.
pub open spec fn simple_question_markers() -> Seq<Seq<char>> {
    seq!["what time"@, "what's the time"@, "what day"@, "what's the date"@, "what is the date"@, "what is the time"@, "current time"@, "current date"@, "what is today"@, "what's today"@]
}

fn simple_question_list() -> (v: Vec<&'static str>)
    ensures
        strs_view(v@) == simple_question_markers(),
{
    let v = vec!["what time", "what's the time", "what day", "what's the date", "what is the date", "what is the time", "current time", "current date", "what is today", "what's today"];
    assert(strs_view(v@) =~= simple_question_markers());
    v
}

/// Requests to write or change code.
pub open spec fn code_request_markers() -> Seq<Seq<char>> {
    seq!["write a function"@, "write a program"@, "write code"@, "implement a"@, "debug this"@, "fix this code"@, "refactor"@, "code review"@, "write a script"@, "write a class"@, "write a method"@, "write a test"@, "write a module"@, "write an api"@, "write a query"@, "sql query"@, "regex for"@, "regular expression"@]
}

fn code_request_list() -> (v: Vec<&'static str>)
    ensures
        strs_view(v@) == code_request_markers(),
{
    let v = vec!["write a function", "write a program", "write code", "implement a", "debug this", "fix this code", "refactor", "code review", "write a script", "write a class", "write a method", "write a test", "write a module", "write an api", "write a query", "sql query", "regex for", "regular expression"];
    assert(strs_view(v@) =~= code_request_markers());
    v
}

/// Fragments that indicate code in the message itself.
pub open spec fn code_content_markers() -> Seq<Seq<char>> {
    seq!["```"@, "fn "@, "def "@, "class "@, "function "@, "import "@, "#include"@]
}

fn code_content_list() -> (v: Vec<&'static str>)
    ensures
        strs_view(v@) == code_content_markers(),
{
    let v = vec!["```", "fn ", "def ", "class ", "function ", "import ", "#include"];
    assert(strs_view(v@) =~= code_content_markers());
    v
}

/// Mathematical task markers.
pub open spec fn math_markers() -> Seq<Seq<char>> {
    seq!["solve"@, "prove"@, "calculate"@, "compute"@, "derive"@, "integrate"@, "differentiate"@, "equation"@, "theorem"@, "mathematical"@, "probability"@, "statistics"@, "matrix"@, "eigenvalue"@]
}

fn math_list() -> (v: Vec<&'static str>)
    ensures
        strs_view(v@) == math_markers(),
{
    let v = vec!["solve", "prove", "calculate", "compute", "derive", "integrate", "differentiate", "equation", "theorem", "mathematical", "probability", "statistics", "matrix", "eigenvalue"];
    assert(strs_view(v@) =~= math_markers());
    v
}

/// Complex analysis markers.
pub open spec fn complex_markers() -> Seq<Seq<char>> {
    seq!["analyze"@, "analyse"@, "compare and contrast"@, "write an essay"@, "explain in detail"@, "in-depth"@, "comprehensive"@, "thorough analysis"@, "critical analysis"@, "evaluate the"@, "pros and cons"@, "implications of"@, "discuss the impact"@, "multi-step"@, "step by step"@, "detailed explanation"@, "research paper"@, "literature review"@]
}

fn complex_list() -> (v: Vec<&'static str>)
    ensures
        strs_view(v@) == complex_markers(),
{
    let v = vec!["analyze", "analyse", "compare and contrast", "write an essay", "explain in detail", "in-depth", "comprehensive", "thorough analysis", "critical analysis", "evaluate the", "pros and cons", "implications of", "discuss the impact", "multi-step", "step by step", "detailed explanation", "research paper", "literature review"];
    assert(strs_view(v@) =~= complex_markers());
    v
}

/// Creative writing markers.
pub open spec fn creative_markers() -> Seq<Seq<char>> {
    seq!["write a story"@, "write a poem"@, "creative writing"@, "write a novel"@, "write a song"@, "write lyrics"@, "fictional"@, "short story"@, "write a speech"@, "write a letter"@]
}

fn creative_list() -> (v: Vec<&'static str>)
    ensures
        strs_view(v@) == creative_markers(),
{
    let v = vec!["write a story", "write a poem", "creative writing", "write a novel", "write a song", "write lyrics", "fictional", "short story", "write a speech", "write a letter"];
    assert(strs_view(v@) =~= creative_markers());
    v
}

/// Tool-use phrases counted by signal detection.
pub open spec fn tool_signal_patterns() -> Seq<Seq<char>> {
    seq!["search the web"@, "search for"@, "look up"@, "find online"@, "read file"@, "write file"@, "read the file"@, "write to file"@, "make a request"@, "fetch url"@, "http get"@, "browse to"@, "download"@, "send email"@, "check email"@]
}

fn tool_signal_list() -> (v: Vec<&'static str>)
    ensures
        strs_view(v@) == tool_signal_patterns(),
{
    let v = vec!["search the web", "search for", "look up", "find online", "read file", "write file", "read the file", "write to file", "make a request", "fetch url", "http get", "browse to", "download", "send email", "check email"];
    assert(strs_view(v@) =~= tool_signal_patterns());
    v
}

/// Tool-use phrases counted by the tool-count factor.
pub open spec fn tool_count_patterns() -> Seq<Seq<char>> {
    seq!["search the web"@, "search for"@, "look up"@, "find online"@, "read file"@, "write file"@, "read the file"@, "write to file"@, "make a request"@, "fetch url"@, "http get"@, "browse to"@, "download"@, "send email"@, "check email"@, "run command"@, "execute"@, "open"@, "save"@, "upload"@]
}

fn tool_count_list() -> (v: Vec<&'static str>)
    ensures
        strs_view(v@) == tool_count_patterns(),
{
    let v = vec!["search the web", "search for", "look up", "find online", "read file", "write file", "read the file", "write to file", "make a request", "fetch url", "http get", "browse to", "download", "send email", "check email", "run command", "execute", "open", "save", "upload"];
    assert(strs_view(v@) =~= tool_count_patterns());
    v
}

/// Hints that the user prefers a fast local answer.
pub open spec fn local_hints() -> Seq<Seq<char>> {
    seq!["use local"@, "quick answer"@, "fast"@, "briefly"@, "tldr"@, "tl;dr"@]
}

fn local_hint_list() -> (v: Vec<&'static str>)
    ensures
        strs_view(v@) == local_hints(),
{
    let v = vec!["use local", "quick answer", "fast", "briefly", "tldr", "tl;dr"];
    assert(strs_view(v@) =~= local_hints());
    v
}

/// Hints that the user prefers a thorough cloud answer.
pub open spec fn cloud_hints() -> Seq<Seq<char>> {
    seq!["best quality"@, "thorough"@, "use cloud"@, "detailed"@, "in depth"@, "comprehensive"@]
}

fn cloud_hint_list() -> (v: Vec<&'static str>)
    ensures
        strs_view(v@) == cloud_hints(),
{
    let v = vec!["best quality", "thorough", "use cloud", "detailed", "in depth", "comprehensive"];
    assert(strs_view(v@) =~= cloud_hints());
    v
}

/// Sensitive topics, in the order their weights are listed.
pub open spec fn sensitive_patterns() -> Seq<Seq<char>> {
    seq!["medical advice"@, "legal advice"@, "financial advice"@, "investment"@, "diagnosis"@, "prescription"@, "therapy"@, "suicide"@, "self-harm"@, "violence"@, "weapon"@, "hack"@, "exploit"@, "personal data"@, "password"@, "social security"@, "credit card"@, "children"@, "minor"@]
}

fn sensitive_list() -> (v: Vec<&'static str>)
    ensures
        strs_view(v@) == sensitive_patterns(),
{
    let v = vec!["medical advice", "legal advice", "financial advice", "investment", "diagnosis", "prescription", "therapy", "suicide", "self-harm", "violence", "weapon", "hack", "exploit", "personal data", "password", "social security", "credit card", "children", "minor"];
    assert(strs_view(v@) =~= sensitive_patterns());
    v
}

// ── Signals ──────────────────────────────────────────────────────────

/// Signal categories detected in a message; several factors read them.
#[derive(Debug, Clone, Copy, PartialEq, Eq, Structural)]
pub struct Signals {
    pub is_greeting: bool,
    pub is_short_message: bool,
    pub is_simple_question: bool,
    pub is_code_request: bool,
    pub is_code_content: bool,
    pub is_math_request: bool,
    pub is_complex_analysis: bool,
    pub is_creative_writing: bool,
    pub is_tool_use: bool,
    pub is_long_message: bool,
    pub tool_signal_count: u8,
}

/// No signal set.
pub open spec fn no_signals() -> Signals {
    Signals {
        is_greeting: false,
        is_short_message: false,
        is_simple_question: false,
        is_code_request: false,
        is_code_content: false,
        is_math_request: false,
        is_complex_analysis: false,
        is_creative_writing: false,
        is_tool_use: false,
        is_long_message: false,
        tool_signal_count: 0,
    }
}

impl Default for Signals {
    fn default() -> (s: Self)
        ensures
            s == no_signals(),
    {
        Signals {
            is_greeting: false,
            is_short_message: false,
            is_simple_question: false,
            is_code_request: false,
            is_code_content: false,
            is_math_request: false,
            is_complex_analysis: false,
            is_creative_writing: false,
            is_tool_use: false,
            is_long_message: false,
            tool_signal_count: 0,
        }
    }
}

/// The whole (lower-cased) message is a greeting, optionally followed by `!` or `.`.
pub open spec fn greeting_spec(lower: Seq<char>) -> bool {
    exists|k: int|
        0 <= k < greeting_words().len() && (lower == #[trigger] greeting_words()[k] || lower
            == greeting_words()[k].push('!') || lower == greeting_words()[k].push('.'))
}

/// At most three words, no question mark, and not a write/explain/analyze command.
pub open spec fn short_message_spec(lower: Seq<char>, wc: nat) -> bool {
    wc <= 3 && !has_char(lower, '?') && !has_prefix(lower, "write"@) && !has_prefix(
        lower,
        "explain"@,
    ) && !has_prefix(lower, "analyze"@)
}

/// Signals of a message, given its lower-cased trimmed text, its raw
/// text and its word count.
pub open spec fn signals_spec(lower: Seq<char>, raw: Seq<char>, wc: nat) -> Signals {
    let hits = count_contained(lower, tool_signal_patterns());
    Signals {
        is_greeting: greeting_spec(lower),
        is_short_message: short_message_spec(lower, wc),
        is_simple_question: contains_any(lower, simple_question_markers()),
        is_code_request: contains_any(lower, code_request_markers()),
        is_code_content: contains_any(raw, code_content_markers()),
        is_math_request: contains_any(lower, math_markers()),
        is_complex_analysis: contains_any(lower, complex_markers()),
        is_creative_writing: contains_any(lower, creative_markers()),
        is_tool_use: hits > 0,
        is_long_message: wc > 100,
        tool_signal_count: hits as u8,
    }
}

/// Tier from signals: code/math → T4, analysis/creative/tools/long → T3,
/// greeting/simple/short → T1, otherwise T2.
pub open spec fn tier_spec(s: Signals) -> PromptTier {
    if s.is_code_request || s.is_code_content || s.is_math_request {
        PromptTier::T4Specialist
    } else if s.is_complex_analysis || s.is_creative_writing || s.is_tool_use || s.is_long_message {
        PromptTier::T3Pro
    } else if s.is_greeting || s.is_simple_question || s.is_short_message {
        PromptTier::T1Fast
    } else {
        PromptTier::T2Standard
    }
}

/// Name of the most descriptive signal, for diagnostics.
pub open spec fn rule_name(s: Signals) -> Seq<char> {
    if s.is_greeting {
        "greeting"@
    } else if s.is_simple_question {
        "simple_question"@
    } else if s.is_short_message {
        "short_message"@
    } else if s.is_code_request {
        "code_request"@
    } else if s.is_code_content {
        "code_content"@
    } else if s.is_math_request {
        "math_request"@
    } else if s.is_complex_analysis {
        "complex_analysis"@
    } else if s.is_creative_writing {
        "creative_writing"@
    } else if s.is_tool_use {
        "tool_use_request"@
    } else if s.is_long_message {
        "long_message"@
    } else {
        "default"@
    }
}

/// Layer 1 confidence in hundredths: strong signals give high confidence;
/// no strong signal gives 40, below the threshold for a second opinion.
pub open spec fn confidence_spec(s: Signals) -> u8 {
    if s.is_greeting {
        95
    } else if s.is_simple_question {
        90
    } else if s.is_code_request || s.is_code_content {
        85
    } else if s.is_math_request {
        80
    } else if s.is_complex_analysis {
        80
    } else if s.is_creative_writing {
        75
    } else if s.is_tool_use {
        75
    } else if s.is_short_message {
        60
    } else if s.is_long_message {
        60
    } else {
        40
    }
}

impl Signals {
    /// The most descriptive rule name for diagnostics (always `Some`).
    pub fn primary_rule(&self) -> (r: Option<String>)
        ensures
            r matches Some(name) && name@ == rule_name(*self),
    {
        let name = if self.is_greeting {
            "greeting"
        } else if self.is_simple_question {
            "simple_question"
        } else if self.is_short_message {
            "short_message"
        } else if self.is_code_request {
            "code_request"
        } else if self.is_code_content {
            "code_content"
        } else if self.is_math_request {
            "math_request"
        } else if self.is_complex_analysis {
            "complex_analysis"
        } else if self.is_creative_writing {
            "creative_writing"
        } else if self.is_tool_use {
            "tool_use_request"
        } else if self.is_long_message {
            "long_message"
        } else {
            "default"
        };
        Some(name.to_owned())
    }
}

/// Tier from detected signals (strongest signal wins).
pub fn tier_from_signals(signals: &Signals) -> (t: PromptTier)
    ensures
        t == tier_spec(*signals),
{
    if signals.is_code_request || signals.is_code_content || signals.is_math_request {
        return PromptTier::T4Specialist;
    }
    if signals.is_complex_analysis || signals.is_creative_writing || signals.is_tool_use
        || signals.is_long_message {
        return PromptTier::T3Pro;
    }
    if signals.is_greeting || signals.is_simple_question || signals.is_short_message {
        return PromptTier::T1Fast;
    }
    PromptTier::T2Standard
}

/// Layer 1 confidence, in hundredths.
pub fn compute_confidence(signals: &Signals) -> (c: u8)
    ensures
        c == confidence_spec(*signals),
{
    if signals.is_greeting {
        95
    } else if signals.is_simple_question {
        90
    } else if signals.is_code_request || signals.is_code_content {
        85
    } else if signals.is_math_request {
        80
    } else if signals.is_complex_analysis {
        80
    } else if signals.is_creative_writing {
        75
    } else if signals.is_tool_use {
        75
    } else if signals.is_short_message {
        60
    } else if signals.is_long_message {
        60
    } else {
        40
    }
}

fn detect_greeting(lower: &[char]) -> (b: bool)
    ensures
        b == greeting_spec(lower@),
{
    let gs = greeting_list();
    let mut k: usize = 0;
    while k < gs.len()
        invariant
            k <= gs@.len(),
            strs_view(gs@) == greeting_words(),
            forall|j: int|
                0 <= j < k ==> !(lower@ == #[trigger] greeting_words()[j] || lower@
                    == greeting_words()[j].push('!') || lower@ == greeting_words()[j].push('.')),
        decreases gs@.len() - k,
    {
        let g = chars_of(gs[k]);
        assert(g@ == greeting_words()[k as int]);
        let mut gb = g.clone();
        gb.push('!');
        let mut gd = g.clone();
        gd.push('.');
        if eq_chars(lower, g.as_slice()) || eq_chars(lower, gb.as_slice()) || eq_chars(
            lower,
            gd.as_slice(),
        ) {
            return true;
        }
        k += 1;
    }
    false
}

/// Detect the signal categories of a message.
pub fn detect_signals(lower: &[char], raw: &[char], word_count: usize) -> (s: Signals)
    ensures
        s == signals_spec(lower@, raw@, word_count as nat),
{
    let mut s = Signals::default();
    s.is_greeting = detect_greeting(lower);
    if word_count <= 3 && !contains_char(lower, '?') && !starts_with_str(lower, "write")
        && !starts_with_str(lower, "explain") && !starts_with_str(lower, "analyze") {
        s.is_short_message = true;
    }
    s.is_simple_question = contains_any_of(lower, simple_question_list().as_slice());
    s.is_code_request = contains_any_of(lower, code_request_list().as_slice());
    s.is_code_content = contains_any_of(raw, code_content_list().as_slice());
    s.is_math_request = contains_any_of(lower, math_list().as_slice());
    s.is_complex_analysis = contains_any_of(lower, complex_list().as_slice());
    s.is_creative_writing = contains_any_of(lower, creative_list().as_slice());
    let tl = tool_signal_list();
    let hits = count_any_of(lower, tl.as_slice());
    if hits > 0 {
        s.is_tool_use = true;
        s.tool_signal_count = hits as u8;
    }
    if word_count > 100 {
        s.is_long_message = true;
    }
    s
}

// ── Factor scoring ───────────────────────────────────────────────────

/// Word-count contribution to complexity.
pub open spec fn word_count_points(wc: nat) -> nat {
    if wc <= 3 {
        5
    } else if wc <= 10 {
        15
    } else if wc <= 30 {
        30
    } else if wc <= 60 {
        45
    } else if wc <= 100 {
        60
    } else {
        75
    }
}

/// Five points per question mark, at most fifteen.
pub open spec fn question_points(lower: Seq<char>) -> nat {
    if count_char(lower, '?') * 5 > 15 {
        15
    } else {
        count_char(lower, '?') * 5
    }
}

/// Multi-step phrasing.
pub open spec fn multi_step_spec(lower: Seq<char>) -> bool {
    seq_contains(lower, "step by step"@) || (seq_contains(lower, "first"@) && (seq_contains(
        lower,
        "then"@,
    ) || seq_contains(lower, "next"@) || seq_contains(lower, "finally"@)))
}

/// Factor 1: complexity.
pub open spec fn complexity_spec(lower: Seq<char>, wc: nat, s: Signals) -> u8 {
    if s.is_greeting {
        5
    } else if s.is_simple_question {
        10
    } else {
        let total = word_count_points(wc) + question_points(lower) + (if multi_step_spec(lower) {
            15nat
        } else {
            0nat
        }) + (if s.is_code_request || s.is_code_content {
            25nat
        } else {
            0nat
        }) + (if s.is_math_request {
            25nat
        } else {
            0nat
        }) + (if s.is_complex_analysis {
            20nat
        } else {
            0nat
        }) + (if s.is_creative_writing {
            15nat
        } else {
            0nat
        });
        if total > 100 {
            100
        } else {
            total as u8
        }
    }
}

/// Weights of the sensitive topics, aligned with `sensitive_patterns()`.
pub open spec fn sensitive_weights() -> Seq<u16> {
    seq![30, 30, 25, 20, 30, 30, 20, 50, 50, 40, 40, 30, 25, 25, 20, 35, 25, 15, 15]
}

/// Sum of the weights of the first `n` sensitive topics present in `lower`.
pub open spec fn sensitive_sum(lower: Seq<char>, n: int) -> nat
    decreases n,
{
    if n <= 0 {
        0
    } else {
        sensitive_sum(lower, n - 1) + if seq_contains(lower, sensitive_patterns()[n - 1]) {
            sensitive_weights()[n - 1] as nat
        } else {
            0nat
        }
    }
}

/// Factor 2: ethical weight. The baseline 5 plus the weights of the topics
/// present, saturating at 100 like every factor.
pub open spec fn ethical_spec(lower: Seq<char>) -> u8 {
    let t = 5 + sensitive_sum(lower, 19);
    if t > 100 {
        100
    } else {
        t as u8
    }
}

/// Factor 3: latency tolerance.
pub open spec fn latency_spec(s: Signals) -> u8 {
    if s.is_greeting {
        5
    } else if s.is_simple_question || s.is_short_message {
        10
    } else if s.is_code_request || s.is_code_content || s.is_math_request {
        85
    } else if s.is_complex_analysis {
        75
    } else if s.is_creative_writing {
        70
    } else if s.is_tool_use {
        65
    } else if s.is_long_message {
        60
    } else {
        40
    }
}

/// Factor 4: tool count, from the number of tool phrases present.
pub open spec fn tool_count_spec(lower: Seq<char>) -> u8 {
    let hits = count_contained(lower, tool_count_patterns());
    if hits == 0 {
        0
    } else if hits == 1 {
        30
    } else if hits == 2 {
        60
    } else {
        90
    }
}

/// Factor 5: user preference (15 for fast hints, 85 for quality hints, else 50).
pub open spec fn preference_spec(lower: Seq<char>) -> u8 {
    if contains_any(lower, local_hints()) {
        15
    } else if contains_any(lower, cloud_hints()) {
        85
    } else {
        50
    }
}

fn question_points_of(lower: &[char]) -> (r: u16)
    ensures
        r as nat == question_points(lower@),
        r <= 15,
{
    let q = count_char_in(lower, '?');
    if q >= 3 {
        15
    } else {
        (q as u16) * 5
    }
}

fn is_multi_step(lower: &[char]) -> (r: bool)
    ensures
        r == multi_step_spec(lower@),
{
    contains_str(lower, "step by step") || contains_str(lower, "first") && (contains_str(
        lower,
        "then",
    ) || contains_str(lower, "next") || contains_str(lower, "finally"))
}

/// Factor 1: complexity of the request.
pub fn score_complexity(lower: &[char], word_count: usize, signals: &Signals) -> (r: u8)
    ensures
        r == complexity_spec(lower@, word_count as nat, *signals),
        r <= 100,
{
    if signals.is_greeting {
        return 5;
    }
    if signals.is_simple_question {
        return 10;
    }
    let base: u16 = if word_count <= 3 {
        5
    } else if word_count <= 10 {
        15
    } else if word_count <= 30 {
        30
    } else if word_count <= 60 {
        45
    } else if word_count <= 100 {
        60
    } else {
        75
    };
    assert(base as nat == word_count_points(word_count as nat));
    let qp = question_points_of(lower);
    let multi = is_multi_step(lower);
    let m: u16 = if multi {
        15
    } else {
        0
    };
    let c: u16 = if signals.is_code_request || signals.is_code_content {
        25
    } else {
        0
    };
    let mt: u16 = if signals.is_math_request {
        25
    } else {
        0
    };
    let a: u16 = if signals.is_complex_analysis {
        20
    } else {
        0
    };
    let w: u16 = if signals.is_creative_writing {
        15
    } else {
        0
    };
    let score: u16 = base + qp + m + c + mt + a + w;
    if score > 100 {
        100
    } else {
        score as u8
    }
}

/// Factor 2: ethical weight of the topic.
pub fn score_ethical_weight(lower: &[char]) -> (r: u8)
    ensures
        r == ethical_spec(lower@),
        r <= 100,
{
    let pats = sensitive_list();
    let ws: Vec<u16> = vec![30, 30, 25, 20, 30, 30, 20, 50, 50, 40, 40, 30, 25, 25, 20, 35, 25, 15, 15];
    assert(ws@ =~= sensitive_weights());
    assert(pats@.len() == strs_view(pats@).len());
    let mut score: u16 = 5;
    let mut k: usize = 0;
    while k < 19
        invariant
            k <= 19,
            pats@.len() == 19,
            strs_view(pats@) == sensitive_patterns(),
            ws@ == sensitive_weights(),
            score as nat == 5 + sensitive_sum(lower@, k as int),
            score <= 5 + 50 * k,
        decreases 19 - k,
    {
        assert(strs_view(pats@)[k as int] == pats@[k as int]@);
        if contains_str(lower, pats[k]) {
            score += ws[k];
        }
        k += 1;
    }
    if score > 100 {
        100
    } else {
        score as u8
    }
}

/// Factor 3: latency tolerance (higher means the user can wait).
pub fn score_latency_tolerance(signals: &Signals) -> (r: u8)
    ensures
        r == latency_spec(*signals),
{
    if signals.is_greeting {
        return 5;
    }
    if signals.is_simple_question || signals.is_short_message {
        return 10;
    }
    if signals.is_code_request || signals.is_code_content || signals.is_math_request {
        return 85;
    }
    if signals.is_complex_analysis {
        return 75;
    }
    if signals.is_creative_writing {
        return 70;
    }
    if signals.is_tool_use {
        return 65;
    }
    if signals.is_long_message {
        return 60;
    }
    40
}

/// Factor 4: how many tools the request likely needs.
pub fn score_tool_count(lower: &[char]) -> (r: u8)
    ensures
        r == tool_count_spec(lower@),
{
    let pats = tool_count_list();
    let hits = count_any_of(lower, pats.as_slice());
    if hits == 0 {
        0
    } else if hits == 1 {
        30
    } else if hits == 2 {
        60
    } else {
        90
    }
}

/// Factor 5: explicit routing hints from the user.
pub fn score_user_preference(lower: &[char]) -> (r: u8)
    ensures
        r == preference_spec(lower@),
{
    if contains_any_of(lower, local_hint_list().as_slice()) {
        return 15;
    }
    if contains_any_of(lower, cloud_hint_list().as_slice()) {
        return 85;
    }
    50
}

// ── Layer 1 classification ───────────────────────────────────────────

/// Result of the deterministic first classification layer.
#[derive(Debug, Clone)]
pub struct Layer1Classification {
    pub tier: PromptTier,
    /// Confidence in hundredths (0..=100).
    pub confidence_pct: u8,
    /// Which rule produced the classification.
    pub matched_rule: Option<String>,
    /// Five-factor breakdown.
    pub matrix: DecisionMatrix,
    /// Routing target derived from the matrix.
    pub routing_target: RoutingTarget,
}

/// The matrix of a message with lower-cased text `lower`, word count `wc`
/// and signals `s`.
pub open spec fn matrix_spec(lower: Seq<char>, wc: nat, s: Signals) -> DecisionMatrix {
    DecisionMatrix {
        complexity: complexity_spec(lower, wc, s),
        ethical_weight: ethical_spec(lower),
        latency_tolerance: latency_spec(s),
        tool_count: tool_count_spec(lower),
        user_preference: preference_spec(lower),
    }
}

/// The lower-cased, trimmed text that the signal patterns are matched against.
pub open spec fn layer1_text(message: Seq<char>) -> Seq<char> {
    lowercase(trim(message))
}

/// The signals of a message.
pub open spec fn message_signals(message: Seq<char>) -> Signals {
    signals_spec(layer1_text(message), message, word_count(message))
}

/// Layer 1: classify a message with the five-factor matrix (no model call).
pub fn classify_layer1(message: &str) -> (r: Layer1Classification)
    ensures
        ({
            let lower = layer1_text(message@);
            let wc = word_count(message@);
            let s = message_signals(message@);
            &&& r.tier == tier_spec(s)
            &&& r.confidence_pct == confidence_spec(s)
            &&& r.matched_rule matches Some(m) && m@ == rule_name(s)
            &&& r.matrix == matrix_spec(lower, wc, s)
            &&& r.routing_target == routing_target_spec(r.matrix)
        }),
{
    let raw = chars_of(message);
    let trimmed = trim_chars(raw.as_slice());
    let trimmed_s = string_of(trimmed.as_slice());
    let lower = lower_chars(trimmed_s.as_str());
    let wc = count_words(raw.as_slice());
    let signals = detect_signals(lower.as_slice(), raw.as_slice(), wc);
    let complexity = score_complexity(lower.as_slice(), wc, &signals);
    let ethical_weight = score_ethical_weight(lower.as_slice());
    let latency_tolerance = score_latency_tolerance(&signals);
    let tool_count = score_tool_count(lower.as_slice());
    let user_preference = score_user_preference(lower.as_slice());
    let matrix = DecisionMatrix {
        complexity,
        ethical_weight,
        latency_tolerance,
        tool_count,
        user_preference,
    };
    let tier = tier_from_signals(&signals);
    let routing_target = matrix.to_routing_target();
    let confidence_pct = compute_confidence(&signals);
    let matched_rule = signals.primary_rule();
    Layer1Classification { tier, confidence_pct, matched_rule, matrix, routing_target }
}


/// Each factor is at most the other matrix's.
pub open spec fn dominated(a: DecisionMatrix, b: DecisionMatrix) -> bool {
    &&& a.complexity <= b.complexity
    &&& a.ethical_weight <= b.ethical_weight
    &&& a.latency_tolerance <= b.latency_tolerance
    &&& a.tool_count <= b.tool_count
    &&& a.user_preference <= b.user_preference
}

/// Raising any factor never lowers the composite score, and the score
/// never exceeds 100.
pub proof fn lemma_composite_monotone(a: DecisionMatrix, b: DecisionMatrix)
    requires
        dominated(a, b),
    ensures
        composite_spec(a) <= composite_spec(b),
        composite_spec(b) <= 100,
{
    let x = weighted_hundredths(a) + 50;
    let y = weighted_hundredths(b) + 50;
    assert(x <= y);
    assert(x / 100 <= y / 100) by (nonlinear_arith)
        requires
            x <= y,
            0 <= x,
    ;
}

/// A higher score never routes to a less capable target: once a score
/// leaves the local model, every higher score does too.
pub proof fn lemma_score_target_monotone(lo: u8, hi: u8)
    requires
        lo <= hi,
    ensures
        target_for_score(lo) is Ego ==> target_for_score(hi) is Ego,
        target_for_score(hi) is Id ==> target_for_score(lo) is Id,
{
}

/// Code, code content and math always go to the specialist tier, whatever
/// else the message shows; without them, a heavy signal beats a light one.
pub proof fn lemma_tier_priority(s: Signals)
    ensures
        (s.is_code_request || s.is_code_content || s.is_math_request) ==> tier_spec(s) is T4Specialist,
        !(s.is_code_request || s.is_code_content || s.is_math_request)
            && (s.is_complex_analysis || s.is_creative_writing || s.is_tool_use || s.is_long_message)
            ==> tier_spec(s) is T3Pro,
{
}

/// A message with a question mark is never a short message; so a question
/// with no other signal (no greeting, simple-question phrase, code, math,
/// analysis, creative, tool or length signal) is classified standard.
pub proof fn lemma_question_is_not_short(message: Seq<char>)
    ensures
        has_char(layer1_text(message), '?') ==> !message_signals(message).is_short_message,
        ({
            let s = message_signals(message);
            has_char(layer1_text(message), '?') && !s.is_greeting && !s.is_simple_question && !s.is_code_request
                && !s.is_code_content && !s.is_math_request && !s.is_complex_analysis && !s.is_creative_writing
                && !s.is_tool_use && !s.is_long_message ==> tier_spec(s) == PromptTier::T2Standard
        }),
{
}

} // verus!
