//! Reading the tier out of a model's classification reply: the JSON object
//! between the first `{` and the last `}`, and its `tier` field.
use vstd::prelude::*;
use crate::classifier::{
    routing_target_spec, DecisionMatrix, PromptTier, RoutingTarget, DEFAULT_USER_PREFERENCE,
};
use crate::text::{chars_of, str_eq, string_of, sub_chars};

verus! {

/// What parsing `text` as JSON and reading the string field `key` of the
/// top-level object gives: the field's text, or nothing when the text is
/// not JSON, not an object, or the field is missing or not a string.
pub uninterp spec fn json_string_at(text: Seq<char>, key: Seq<char>) -> Option<Seq<char>>;

/// The text of an optional string.
pub open spec fn opt_text(o: Option<String>) -> Option<Seq<char>> {
    match o {
        Some(s) => Some(s@),
        None => None,
    }
}

/// Calls `serde_json::from_str::<serde_json::Value>` on `text`, then
/// `get(key)` and `as_str` on the result. The contract names the outcome
/// `json_string_at(text, key)`.
#[verifier::external_body]
fn json_string_field(text: &str, key: &str) -> (r: Option<String>)
    ensures
        opt_text(r) == json_string_at(text@, key@),
{
    match serde_json::from_str::<serde_json::Value>(text) {
        Ok(v) => v.get(key).and_then(|x| x.as_str()).map(String::from),
        Err(_) => None,
    }
}

/// Index of the first `c` in `s`.
pub open spec fn first_index(s: Seq<char>, c: char) -> Option<int>
    decreases s.len(),
{
    if s.len() == 0 {
        None
    } else if s[0] == c {
        Some(0)
    } else {
        match first_index(s.drop_first(), c) {
            Some(i) => Some(i + 1),
            None => None,
        }
    }
}

/// Index of the last `c` in `s`.
pub open spec fn last_index(s: Seq<char>, c: char) -> Option<int>
    decreases s.len(),
{
    if s.len() == 0 {
        None
    } else if s.last() == c {
        Some(s.len() - 1)
    } else {
        last_index(s.drop_last(), c)
    }
}

/// The braces do not cross over: when both occur, the last `}` is at most
/// one place before the first `{` (a reply where it comes earlier cannot be
/// cut).
pub open spec fn braces_cut(content: Seq<char>) -> bool {
    match (first_index(content, '{'), last_index(content, '}')) {
        (Some(s), Some(e)) => s <= e + 1,
        _ => true,
    }
}

/// The candidate JSON object of a reply: from the first `{` to the last
/// `}`, both included.
pub open spec fn object_span(content: Seq<char>) -> Option<Seq<char>> {
    match (first_index(content, '{'), last_index(content, '}')) {
        (Some(s), Some(e)) => Some(content.subrange(s, e + 1)),
        _ => None,
    }
}

/// The prompt tier a reply names (`T1`..`T4`).
pub open spec fn tier_named(t: Seq<char>) -> Option<PromptTier> {
    if t == "T1"@ {
        Some(PromptTier::T1Fast)
    } else if t == "T2"@ {
        Some(PromptTier::T2Standard)
    } else if t == "T3"@ {
        Some(PromptTier::T3Pro)
    } else if t == "T4"@ {
        Some(PromptTier::T4Specialist)
    } else {
        None
    }
}

/// The neutral matrix of a model-chosen tier: complexity and latency
/// tolerance at the tier's level, ethical weight 5, no tools, neutral
/// preference.
pub open spec fn layer2_matrix_of(t: PromptTier) -> DecisionMatrix {
    let level: u8 = match t {
        PromptTier::T1Fast => 10,
        PromptTier::T2Standard => 35,
        PromptTier::T3Pro => 60,
        PromptTier::T4Specialist => 85,
    };
    DecisionMatrix {
        complexity: level,
        ethical_weight: 5,
        latency_tolerance: level,
        tool_count: 0,
        user_preference: DEFAULT_USER_PREFERENCE,
    }
}

pub(crate) fn find_first_char(s: &[char], c: char) -> (r: Option<usize>)
    ensures
        r matches Some(i) ==> i < s@.len() && first_index(s@, c) == Some(i as int),
        r is None ==> first_index(s@, c) is None,
{
    let mut i: usize = 0;
    assert(s@.skip(0) =~= s@);
    while i < s.len()
        invariant
            i <= s@.len(),
            first_index(s@, c) == match first_index(s@.skip(i as int), c) {
                Some(k) => Some(k + i),
                None => None::<int>,
            },
        decreases s@.len() - i,
    {
        assert(s@.skip(i as int)[0] == s@[i as int]);
        if s[i] == c {
            return Some(i);
        }
        assert(s@.skip(i as int).drop_first() =~= s@.skip(i + 1));
        i += 1;
    }
    None
}

fn find_last_char(s: &[char], c: char) -> (r: Option<usize>)
    ensures
        r matches Some(i) ==> i < s@.len() && last_index(s@, c) == Some(i as int),
        r is None ==> last_index(s@, c) is None,
{
    let mut n: usize = s.len();
    assert(s@.take(n as int) =~= s@);
    while n > 0
        invariant
            n <= s@.len(),
            last_index(s@, c) == last_index(s@.take(n as int), c),
        decreases n,
    {
        assert(s@.take(n as int).last() == s@[n - 1]);
        if s[n - 1] == c {
            return Some(n - 1);
        }
        assert(s@.take(n as int).drop_last() =~= s@.take(n - 1));
        n -= 1;
    }
    None
}

pub proof fn lemma_first_index_bound(s: Seq<char>, c: char)
    ensures
        first_index(s, c) matches Some(i) ==> 0 <= i < s.len(),
    decreases s.len(),
{
    if s.len() > 0 && s[0] != c {
        lemma_first_index_bound(s.drop_first(), c);
    }
}

proof fn lemma_last_index_bound(s: Seq<char>, c: char)
    ensures
        last_index(s, c) matches Some(i) ==> 0 <= i < s.len(),
    decreases s.len(),
{
    if s.len() > 0 && s.last() != c {
        lemma_last_index_bound(s.drop_last(), c);
    }
}

/// The classification a model's `tier` text stands for: `T1`..`T4` give
/// that tier, the neutral matrix of the tier (see `layer2_matrix_of`), its
/// routing target and the rule `llm_layer2`; any other text gives `None`.
pub fn layer2_from_tier_text(tier_text: &str) -> (r: Option<(PromptTier, DecisionMatrix, RoutingTarget, String)>)
    ensures
        match tier_named(tier_text@) {
            None => r is None,
            Some(tier) => match r {
                Some((t, m, g, rule)) => t == tier && m == layer2_matrix_of(tier)
                    && g == routing_target_spec(layer2_matrix_of(tier)) && rule@ == "llm_layer2"@,
                None => false,
            },
        },
{
    proof {
        reveal_strlit("T1");
        reveal_strlit("T2");
        reveal_strlit("T3");
        reveal_strlit("T4");
    }
    let tier = if str_eq(tier_text, "T1") {
        PromptTier::T1Fast
    } else if str_eq(tier_text, "T2") {
        PromptTier::T2Standard
    } else if str_eq(tier_text, "T3") {
        PromptTier::T3Pro
    } else if str_eq(tier_text, "T4") {
        PromptTier::T4Specialist
    } else {
        return None;
    };
    let level: u8 = match tier {
        PromptTier::T1Fast => 10,
        PromptTier::T2Standard => 35,
        PromptTier::T3Pro => 60,
        PromptTier::T4Specialist => 85,
    };
    let matrix = DecisionMatrix {
        complexity: level,
        ethical_weight: 5,
        latency_tolerance: level,
        tool_count: 0,
        user_preference: DEFAULT_USER_PREFERENCE,
    };
    let target = matrix.to_routing_target();
    proof {
        reveal_strlit("llm_layer2");
    }
    Some((tier, matrix, target, String::from_str("llm_layer2")))
}

/// The tier a model reply names, with the neutral matrix of that tier, its
/// routing target and the rule that matched (`llm_layer2`); `None` when the reply has no JSON object, the object
/// has no string `tier`, or it is not one of `T1`..`T4`. (The reply's
/// confidence is a floating-point number and is read by the caller.)
pub fn parse_layer2_tier(content: &str) -> (r: Option<(PromptTier, DecisionMatrix, RoutingTarget, String)>)
    requires
        braces_cut(content@),
    ensures
        match object_span(content@) {
            None => r is None,
            Some(obj) => match json_string_at(obj, "tier"@) {
                None => r is None,
                Some(t) => match tier_named(t) {
                    None => r is None,
                    Some(tier) => match r {
                        Some((t, m, g, rule)) => t == tier && m == layer2_matrix_of(tier)
                            && g == routing_target_spec(layer2_matrix_of(tier)) && rule@ == "llm_layer2"@,
                        None => false,
                    },
                },
            },
        },
{
    proof {
        reveal_strlit("tier");
    }
    let cs = chars_of(content);
    let start = match find_first_char(cs.as_slice(), '{') {
        Some(s) => s,
        None => {
            return None;
        },
    };
    let end = match find_last_char(cs.as_slice(), '}') {
        Some(e) => e,
        None => {
            return None;
        },
    };
    proof {
        lemma_first_index_bound(cs@, '{');
        lemma_last_index_bound(cs@, '}');
        assert(first_index(cs@, '{') == Some(start as int));
        assert(last_index(cs@, '}') == Some(end as int));
        assert(end < cs@.len());
    }
    let n = cs.len();
    assert(end < n);
    let span = sub_chars(cs.as_slice(), start, end + 1);
    let obj = string_of(span.as_slice());
    let tier_text = match json_string_field(obj.as_str(), "tier") {
        Some(t) => t,
        None => {
            return None;
        },
    };
    layer2_from_tier_text(tier_text.as_str())
}


/// The JSON object a council member's score reply is read from: in the trimmed
/// reply, from the first `{` to the last `}`, when that `}` comes after the
/// `{`.
pub open spec fn score_object_of(text: Seq<char>) -> Option<Seq<char>> {
    let t = crate::text::trim(text);
    match (first_index(t, '{'), last_index(t, '}')) {
        (Some(s), Some(e)) => if e <= s {
            None
        } else {
            Some(t.subrange(s, e + 1))
        },
        _ => None,
    }
}

/// The JSON object of a score reply (see `score_object_of`); the score in
/// it is a floating-point number and is read by the caller.
pub fn score_object(text: &str) -> (r: Option<String>)
    ensures
        opt_text(r) == score_object_of(text@),
{
    let cs = chars_of(text);
    let t = crate::text::trim_chars(cs.as_slice());
    let start = match find_first_char(t.as_slice(), '{') {
        Some(s) => s,
        None => {
            return None;
        },
    };
    let end = match find_last_char(t.as_slice(), '}') {
        Some(e) => e,
        None => {
            return None;
        },
    };
    if end <= start {
        return None;
    }
    let span = sub_chars(t.as_slice(), start, end + 1);
    Some(string_of(span.as_slice()))
}

/// Layer 1's result stands as it is when its confidence reaches one half.
pub const L2_CONFIDENCE_THRESHOLD_PCT: u8 = 50;

/// Whether to ask the model for a tier (layer 2): layer 1's confidence is
/// below one half and a model is available.
pub fn layer2_wanted(l1_confidence_pct: u8, has_llm: bool) -> (r: bool)
    ensures
        r == (l1_confidence_pct < L2_CONFIDENCE_THRESHOLD_PCT && has_llm),
{
    l1_confidence_pct < L2_CONFIDENCE_THRESHOLD_PCT && has_llm
}

/// The classification that stands: layer 2's when it was wanted and the
/// model's reply gave one, else layer 1's (a failed or timed-out model call
/// falls back to layer 1).
pub fn settle_classification<T>(l1: T, l1_confidence_pct: u8, has_llm: bool, l2: Option<T>) -> (r: T)
    ensures
        r == (if l1_confidence_pct < L2_CONFIDENCE_THRESHOLD_PCT && has_llm && l2 is Some {
            l2->0
        } else {
            l1
        }),
{
    if layer2_wanted(l1_confidence_pct, has_llm) {
        match l2 {
            Some(c) => c,
            None => l1,
        }
    } else {
        l1
    }
}

/// The prompt asking the model to classify `message` into a tier.
pub open spec fn layer2_prompt_text(message: Seq<char>) -> Seq<char> {
    "Classify this user message into exactly one complexity tier. Reply with ONLY a JSON object.\n\nTiers:\n- T1: Simple greetings, factual lookups, yes/no questions, time/date\n- T2: Standard conversation, summaries, definitions, moderate questions\n- T3: Complex analysis, essays, multi-step reasoning, creative writing\n- T4: Code generation, math proofs, specialized domain tasks\n\nUser message: \""@
        + message + "\"\n\nReply ONLY with: {\"tier\": \"T1\"|\"T2\"|\"T3\"|\"T4\", \"confidence\": 0.0-1.0}"@
}

/// The layer 2 prompt for `message` (see `layer2_prompt_text`).
pub fn layer2_prompt(message: &str) -> (s: String)
    ensures
        s@ == layer2_prompt_text(message@),
{
    let mut v: Vec<char> = Vec::new();
    crate::text::append_str(&mut v, "Classify this user message into exactly one complexity tier. Reply with ONLY a JSON object.\n\nTiers:\n- T1: Simple greetings, factual lookups, yes/no questions, time/date\n- T2: Standard conversation, summaries, definitions, moderate questions\n- T3: Complex analysis, essays, multi-step reasoning, creative writing\n- T4: Code generation, math proofs, specialized domain tasks\n\nUser message: \"");
    crate::text::append_str(&mut v, message);
    crate::text::append_str(&mut v, "\"\n\nReply ONLY with: {\"tier\": \"T1\"|\"T2\"|\"T3\"|\"T4\", \"confidence\": 0.0-1.0}");
    string_of(v.as_slice())
}

} // verus!
