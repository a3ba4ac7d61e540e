//! Goal frames: what the execution governor needs to run, evaluate and bound
//! an autonomous execution loop. Calling the planning model is done by the
//! caller; this module holds the frame, the planning prompt, the text-only
//! fallback planner and the clean-up of model output.
use vstd::prelude::*;
use crate::text::{
    append_chars, append_str, chars_of, has_prefix, has_suffix, starts_with_str, ends_with_str,
    string_of, strings_view, trim, trim_chars, utf8_len, char_utf8_len, sub_chars,
};

verus! {

/// A structured goal frame.
#[derive(Debug)]
pub struct GoalFrame {
    /// What the user wants to accomplish.
    pub intent: String,
    /// Criteria that must be met for the task to be done.
    pub done_criteria: Vec<String>,
    /// Nice-to-have criteria.
    pub good_criteria: Vec<String>,
    /// What could go wrong.
    pub risk_assessment: String,
    /// Recommended approach.
    pub suggested_approach: String,
    /// When to give up.
    pub abort_conditions: Vec<String>,
    /// Maximum number of loop iterations.
    pub max_iterations: u32,
    /// Time budget in milliseconds.
    pub time_budget_ms: u64,
}

impl Clone for GoalFrame {
    fn clone(&self) -> (g: Self)
        ensures
            g.intent@ == self.intent@,
            strings_view(g.done_criteria@) == strings_view(self.done_criteria@),
            strings_view(g.good_criteria@) == strings_view(self.good_criteria@),
            g.risk_assessment@ == self.risk_assessment@,
            g.suggested_approach@ == self.suggested_approach@,
            strings_view(g.abort_conditions@) == strings_view(self.abort_conditions@),
            g.max_iterations == self.max_iterations,
            g.time_budget_ms == self.time_budget_ms,
    {
        GoalFrame {
            intent: self.intent.clone(),
            done_criteria: clone_strings(&self.done_criteria),
            good_criteria: clone_strings(&self.good_criteria),
            risk_assessment: self.risk_assessment.clone(),
            suggested_approach: self.suggested_approach.clone(),
            abort_conditions: clone_strings(&self.abort_conditions),
            max_iterations: self.max_iterations,
            time_budget_ms: self.time_budget_ms,
        }
    }
}

/// A copy of a list of strings.
pub fn clone_strings(v: &Vec<String>) -> (r: Vec<String>)
    ensures
        r@ == v@,
{
    let mut r: Vec<String> = Vec::new();
    let mut i: usize = 0;
    while i < v.len()
        invariant
            i <= v@.len(),
            r@ == v@.take(i as int),
        decreases v@.len() - i,
    {
        r.push(v[i].clone());
        i += 1;
        assert(r@ =~= v@.take(i as int));
    }
    assert(v@.take(v@.len() as int) =~= v@);
    r
}

impl Default for GoalFrame {
    fn default() -> (g: Self)
        ensures
            g.intent@.len() == 0,
            g.done_criteria@.len() == 0,
            g.good_criteria@.len() == 0,
            g.risk_assessment@.len() == 0,
            g.suggested_approach@.len() == 0,
            g.abort_conditions@.len() == 0,
            g.max_iterations == 10,
            g.time_budget_ms == 120_000,
    {
        GoalFrame {
            intent: String::new(),
            done_criteria: Vec::new(),
            good_criteria: Vec::new(),
            risk_assessment: String::new(),
            suggested_approach: String::new(),
            abort_conditions: Vec::new(),
            max_iterations: 10,
            time_budget_ms: 120_000,
        }
    }
}

impl GoalFrame {
    /// Whether any done criteria are defined.
    pub fn has_done_criteria(&self) -> (b: bool)
        ensures
            b == (self.done_criteria@.len() > 0),
    {
        self.done_criteria.len() > 0
    }
}

/// The longest prefix of `t` whose UTF-8 encoding has at most `n` bytes.
pub open spec fn prefix_within(t: Seq<char>, n: nat) -> Seq<char>
    decreases t.len(),
{
    if t.len() == 0 || utf8_len(t) <= n {
        t
    } else {
        prefix_within(t.drop_last(), n)
    }
}

/// The intent of a text-only plan: the trimmed request, cut to at most its
/// first 200 bytes (at the last character boundary there) followed by
/// `...` when it is longer.
pub open spec fn plan_intent(request: Seq<char>) -> Seq<char> {
    let t = trim(request);
    if utf8_len(t) > 200 {
        prefix_within(t, 200) + "..."@
    } else {
        t
    }
}

proof fn lemma_utf8_len_take(s: Seq<char>, j: int)
    requires
        0 < j <= s.len(),
    ensures
        utf8_len(s.take(j)) == utf8_len(s.take(j - 1)) + char_utf8_len(s[j - 1]),
{
    assert(s.take(j).drop_last() =~= s.take(j - 1));
}

fn cut_to_bytes(t: &[char], n: usize) -> (r: Vec<char>)
    ensures
        r@ == prefix_within(t@, n as nat),
{
    let total = crate::text::utf8_len_of(t);
    let mut j: usize = t.len();
    let mut cur: u128 = total;
    assert(t@.take(j as int) =~= t@);
    while j > 0 && cur > n as u128
        invariant
            j <= t@.len(),
            cur == utf8_len(t@.take(j as int)),
            prefix_within(t@, n as nat) == prefix_within(t@.take(j as int), n as nat),
        decreases j,
    {
        proof {
            lemma_utf8_len_take(t@, j as int);
            assert(t@.take(j as int).drop_last() =~= t@.take(j - 1));
        }
        let v = t[j - 1] as u32;
        let w: u128 = if v < 0x80 {
            1
        } else if v < 0x800 {
            2
        } else if v < 0x10000 {
            3
        } else {
            4
        };
        cur -= w;
        j -= 1;
    }
    let mut r: Vec<char> = Vec::new();
    let mut i: usize = 0;
    while i < j
        invariant
            j <= t@.len(),
            i <= j,
            r@ == t@.take(i as int),
        decreases j - i,
    {
        r.push(t[i]);
        i += 1;
        assert(r@ =~= t@.take(i as int));
    }
    r
}

/// A goal frame for a plain-text request, without a planning model; it
/// serves any request, so a cut never splits a character.
pub fn plan_from_text(user_request: &str) -> (g: GoalFrame)
    ensures
        g.intent@ == plan_intent(user_request@),
        strings_view(g.done_criteria@) == seq!["Successfully address: "@ + g.intent@],
        strings_view(g.good_criteria@) == seq!["Response is clear and well-structured"@],
        g.risk_assessment@ == "No detailed risk assessment (text-only planning)"@,
        g.suggested_approach@ == "Attempt direct completion of the request"@,
        strings_view(g.abort_conditions@) == seq![
            "Repeated failures with no progress"@,
            "Time budget exceeded"@,
        ],
        g.max_iterations == 10,
        g.time_budget_ms == 120_000,
{
    let all = chars_of(user_request);
    let trimmed = trim_chars(all.as_slice());
    proof {
        assert(trimmed@.len() <= all@.len()) by {
            lemma_trim_len(all@);
        }
    }
    let bytes = crate::text::utf8_len_of(trimmed.as_slice());
    let mut intent_chars: Vec<char>;
    if bytes > 200 {
        intent_chars = cut_to_bytes(trimmed.as_slice(), 200);
        append_str(&mut intent_chars, "...");
    } else {
        intent_chars = trimmed;
    }
    let intent = string_of(intent_chars.as_slice());
    let mut done: Vec<char> = Vec::new();
    append_str(&mut done, "Successfully address: ");
    append_chars(&mut done, intent_chars.as_slice());
    let done_s = string_of(done.as_slice());
    let g = GoalFrame {
        intent,
        done_criteria: vec![done_s],
        good_criteria: vec!["Response is clear and well-structured".to_owned()],
        risk_assessment: "No detailed risk assessment (text-only planning)".to_owned(),
        suggested_approach: "Attempt direct completion of the request".to_owned(),
        abort_conditions: vec![
            "Repeated failures with no progress".to_owned(),
            "Time budget exceeded".to_owned(),
        ],
        max_iterations: 10,
        time_budget_ms: 120_000,
    };
    assert(strings_view(g.done_criteria@) =~= seq!["Successfully address: "@ + g.intent@]);
    assert(strings_view(g.good_criteria@) =~= seq!["Response is clear and well-structured"@]);
    assert(strings_view(g.abort_conditions@) =~= seq![
        "Repeated failures with no progress"@,
        "Time budget exceeded"@,
    ]);
    g
}

/// Trimming never lengthens a sequence.
pub proof fn lemma_trim_len(s: Seq<char>)
    ensures
        trim(s).len() <= s.len(),
{
    lemma_trim_start_len(s);
    lemma_trim_end_len(crate::text::trim_start(s));
}

proof fn lemma_trim_start_len(s: Seq<char>)
    ensures
        crate::text::trim_start(s).len() <= s.len(),
    decreases s.len(),
{
    if s.len() > 0 && crate::text::is_ws(s[0]) {
        lemma_trim_start_len(s.drop_first());
    }
}

proof fn lemma_trim_end_len(s: Seq<char>)
    ensures
        crate::text::trim_end(s).len() <= s.len(),
    decreases s.len(),
{
    if s.len() > 0 && crate::text::is_ws(s.last()) {
        lemma_trim_end_len(s.drop_last());
    }
}

/// Model output with a surrounding code fence removed: a trimmed text that
/// starts with "```json" (or "```") and ends with "```" yields its trimmed
/// inside; any other text yields itself, trimmed.
pub open spec fn strip_fences_spec(raw: Seq<char>) -> Seq<char> {
    let t = trim(raw);
    let rest_json = t.subrange(7, t.len() as int);
    let rest_plain = t.subrange(3, t.len() as int);
    if has_prefix(t, "```json"@) && has_suffix(rest_json, "```"@) {
        trim(rest_json.subrange(0, rest_json.len() - 3))
    } else if has_prefix(t, "```"@) && has_suffix(rest_plain, "```"@) {
        trim(rest_plain.subrange(0, rest_plain.len() - 3))
    } else {
        t
    }
}

/// Strip a surrounding markdown code fence from model output.
pub fn strip_markdown_fences(raw: &str) -> (r: String)
    ensures
        r@ == strip_fences_spec(raw@),
{
    proof {
        reveal_strlit("```json");
        reveal_strlit("```");
    }
    let all = chars_of(raw);
    let t = trim_chars(all.as_slice());
    if starts_with_str(t.as_slice(), "```json") {
        let rest = sub_chars(t.as_slice(), 7, t.len());
        if ends_with_str(rest.as_slice(), "```") {
            let inner = sub_chars(rest.as_slice(), 0, rest.len() - 3);
            let r = trim_chars(inner.as_slice());
            return string_of(r.as_slice());
        }
    }
    if starts_with_str(t.as_slice(), "```") {
        let rest = sub_chars(t.as_slice(), 3, t.len());
        if ends_with_str(rest.as_slice(), "```") {
            let inner = sub_chars(rest.as_slice(), 0, rest.len() - 3);
            let r = trim_chars(inner.as_slice());
            return string_of(r.as_slice());
        }
    }
    string_of(t.as_slice())
}


/// The texts of the user messages, in order.
pub open spec fn user_texts(messages: Seq<crate::agentic::ChatMessage>) -> Seq<Seq<char>>
    decreases messages.len(),
{
    if messages.len() == 0 {
        Seq::empty()
    } else {
        let rest = user_texts(messages.drop_last());
        if messages.last().role@ == "user"@ {
            rest.push(messages.last().content@)
        } else {
            rest
        }
    }
}

/// The constraint block of a planning prompt.
pub open spec fn constraint_block(constraints: Seq<Seq<char>>) -> Seq<char> {
    if constraints.len() == 0 {
        Seq::empty()
    } else {
        "\n\nActive constraints:\n"@ + crate::text::joined(constraints.map_values(|c: Seq<char>| "- "@ + c), "\n"@)
    }
}

/// The planning prompt for a request and its active constraints.
pub open spec fn planning_prompt_text(request: Seq<char>, constraints: Seq<Seq<char>>) -> Seq<char> {
    "You are a planning engine for an AI assistant. Analyze the user's request and produce a structured execution plan.\n\nUser request:\n"@
        + request + constraint_block(constraints)
        + "\n\nRespond with ONLY a JSON object matching this schema (no markdown fences, no extra text):\n{\n  \"intent\": \"one-sentence summary of what the user wants\",\n  \"done_criteria\": [\"criterion 1\", \"criterion 2\"],\n  \"good_criteria\": [\"nice-to-have 1\"],\n  \"risk_assessment\": \"what could go wrong\",\n  \"suggested_approach\": \"step-by-step approach\",\n  \"abort_conditions\": [\"when to give up\"],\n  \"max_iterations\": 10,\n  \"time_budget_ms\": 120000\n}"@
}

/// The user messages' texts joined by newlines.
pub fn user_request_chars(messages: &[crate::agentic::ChatMessage]) -> (r: Vec<char>)
    ensures
        r@ == crate::text::joined(user_texts(messages@), "\n"@),
{
    proof {
        reveal_strlit("user");
    }
    let mut users: Vec<String> = Vec::new();
    let mut i: usize = 0;
    while i < messages.len()
        invariant
            i <= messages@.len(),
            strings_view(users@) == user_texts(messages@.take(i as int)),
        decreases messages@.len() - i,
    {
        assert(messages@.take(i + 1).drop_last() =~= messages@.take(i as int));
        if crate::text::str_eq(messages[i].role.as_str(), "user") {
            users.push(messages[i].content.clone());
            assert(strings_view(users@) =~= user_texts(messages@.take(i + 1)));
        }
        i += 1;
    }
    assert(messages@.take(messages@.len() as int) =~= messages@);
    let mut req: Vec<char> = Vec::new();
    crate::text::append_joined(&mut req, users.as_slice(), "\n");
    req
}

/// The request to plan from (the user messages joined by newlines) and
/// the planning prompt for it; an error when the request is blank.
pub fn planning_prompt(messages: &[crate::agentic::ChatMessage], constraints: &[String]) -> (r: Result<(String, String), String>)
    ensures
        ({
            let request = crate::text::joined(user_texts(messages@), "\n"@);
            if trim(request).len() == 0 {
                r matches Err(e) && e@ == "No user messages to plan from"@
            } else {
                r matches Ok((q, p)) && q@ == request
                    && p@ == planning_prompt_text(request, strings_view(constraints@))
            }
        }),
{
    proof {
        reveal_strlit("No user messages to plan from");
        reveal_strlit("\n\nActive constraints:\n");
        reveal_strlit("- ");
    }
    let req = user_request_chars(messages);
    let t = trim_chars(req.as_slice());
    if t.len() == 0 {
        return Err(String::from_str("No user messages to plan from"));
    }
    let mut block: Vec<char> = Vec::new();
    if constraints.len() > 0 {
        append_str(&mut block, "\n\nActive constraints:\n");
        let mut items: Vec<String> = Vec::new();
        let mut k: usize = 0;
        while k < constraints.len()
            invariant
                k <= constraints@.len(),
                strings_view(items@) == strings_view(constraints@.take(k as int)).map_values(|c: Seq<char>| "- "@ + c),
            decreases constraints@.len() - k,
        {
            let mut line = chars_of("- ");
            append_str(&mut line, constraints[k].as_str());
            let ghost before = items@;
            items.push(string_of(line.as_slice()));
            assert(strings_view(items@) =~= strings_view(before).push("- "@ + constraints@[k as int]@));
            assert(strings_view(constraints@.take(k + 1)) =~= strings_view(constraints@.take(k as int)).push(constraints@[k as int]@));
            assert(strings_view(items@) =~= strings_view(constraints@.take(k + 1)).map_values(|c: Seq<char>| "- "@ + c));
            k += 1;
        }
        assert(constraints@.take(constraints@.len() as int) =~= constraints@);
        crate::text::append_joined(&mut block, items.as_slice(), "\n");
    }
    let mut p = chars_of("You are a planning engine for an AI assistant. Analyze the user's request and produce a structured execution plan.\n\nUser request:\n");
    append_chars(&mut p, req.as_slice());
    append_chars(&mut p, block.as_slice());
    append_str(&mut p, "\n\nRespond with ONLY a JSON object matching this schema (no markdown fences, no extra text):\n{\n  \"intent\": \"one-sentence summary of what the user wants\",\n  \"done_criteria\": [\"criterion 1\", \"criterion 2\"],\n  \"good_criteria\": [\"nice-to-have 1\"],\n  \"risk_assessment\": \"what could go wrong\",\n  \"suggested_approach\": \"step-by-step approach\",\n  \"abort_conditions\": [\"when to give up\"],\n  \"max_iterations\": 10,\n  \"time_budget_ms\": 120000\n}");
    assert(block@ =~= constraint_block(strings_view(constraints@)));
    Ok((string_of(req.as_slice()), string_of(p.as_slice())))
}

} // verus!
