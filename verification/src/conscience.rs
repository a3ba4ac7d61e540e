//! Conscience checks: pattern rules that flag personal data and destructive
//! intent in a message or action.
use vstd::prelude::*;
use crate::text::{
    contains_any, contains_any_of, is_whitespace, is_ws, lower_chars, lowercase, strs_view,
    utf8_len, utf8_len_of, has_char, has_prefix, starts_with_str, sub_chars,
};

verus! {

/// Stream of conscience events.
pub const CONSCIENCE_STREAM: &'static str = "entity";
/// Topic of incoming check requests.
pub const CHECK_TOPIC: &'static str = "conscience-check";
/// Topic of outgoing signals.
pub const SIGNAL_TOPIC: &'static str = "ethical-signals";
/// Consumer group of the conscience consumer.
pub const CONSUMER_GROUP: &'static str = "conscience-consumer";

/// A request to evaluate a message or action.
#[derive(Debug)]
pub struct ConscienceRequest {
    pub request_id: String,
    pub content: String,
    /// Kind of check (`chat_message`, `tool_execution`, ...).
    pub context: String,
    pub metadata: Vec<(String, String)>,
}

/// Ethical category of a concern.
#[derive(Debug, Clone, PartialEq, Eq)]
pub enum EthicalCategory {
    Pii,
    Destructive,
    ConstitutionalViolation,
    TrustConcern,
    Custom(String),
}

/// Severity of a concern.
#[derive(Debug, Clone, Copy, PartialEq, Eq, PartialOrd, Ord, Structural)]
pub enum Severity {
    Info,
    Warning,
    Critical,
}

/// A concern found by a check.
#[derive(Debug)]
pub struct ConscienceSignal {
    pub request_id: String,
    pub category: EthicalCategory,
    pub severity: Severity,
    pub description: String,
    pub should_block: bool,
}

/// ASCII digit.
pub open spec fn is_digit(c: char) -> bool {
    '0' <= c && c <= '9'
}

/// An SSN-shaped run `ddd-dd-dddd` starts at `i`.
pub open spec fn ssn_at(t: Seq<char>, i: int) -> bool {
    &&& 0 <= i && i + 11 <= t.len()
    &&& t[i + 3] == '-' && t[i + 6] == '-'
    &&& forall|k: int| 0 <= k < 11 && k != 3 && k != 6 ==> is_digit(#[trigger] t[i + k])
}

/// `t[i..j]` is a whitespace-separated word.
pub open spec fn word_at(t: Seq<char>, i: int, j: int) -> bool {
    &&& 0 <= i < j <= t.len()
    &&& (i == 0 || is_ws(t[i - 1]))
    &&& (j == t.len() || is_ws(t[j]))
    &&& forall|k: int| i <= k < j ==> !is_ws(#[trigger] t[k])
}

/// A word that looks like an e-mail address: it holds `@` and `.`, has
/// more than 5 bytes, and does not start with `http`.
pub open spec fn email_like(w: Seq<char>) -> bool {
    has_char(w, '@') && has_char(w, '.') && utf8_len(w) > 5 && !has_prefix(w, "http"@)
}

/// Whether the (lower-cased) text seems to hold personal data: an e-mail
/// like word or an SSN-shaped run.
pub open spec fn pii_spec(t: Seq<char>) -> bool {
    (exists|i: int, j: int| word_at(t, i, j) && #[trigger] email_like(t.subrange(i, j)))
        || (exists|i: int| #[trigger] ssn_at(t, i))
}

fn ssn_at_exec(t: &[char], i: usize) -> (r: bool)
    requires
        i + 11 <= t@.len(),
    ensures
        r == ssn_at(t@, i as int),
{
    let n = t.len();
    assert(i + 11 <= n);
    if t[i + 3] != '-' || t[i + 6] != '-' {
        return false;
    }
    let mut k: usize = 0;
    while k < 11
        invariant
            i + 11 <= t@.len(),
            n == t@.len(),
            k <= 11,
            forall|q: int| 0 <= q < k && q != 3 && q != 6 ==> is_digit(#[trigger] t@[i + q]),
        decreases 11 - k,
    {
        if k != 3 && k != 6 && !('0' <= t[i + k] && t[i + k] <= '9') {
            return false;
        }
        k += 1;
    }
    true
}

fn email_like_exec(w: &[char]) -> (r: bool)
    ensures
        r == email_like(w@),
{
    let mut at = false;
    let mut dot = false;
    let mut k: usize = 0;
    while k < w.len()
        invariant
            k <= w@.len(),
            at == (exists|q: int| 0 <= q < k && w@[q] == '@'),
            dot == (exists|q: int| 0 <= q < k && w@[q] == '.'),
        decreases w@.len() - k,
    {
        if w[k] == '@' {
            at = true;
        }
        if w[k] == '.' {
            dot = true;
        }
        k += 1;
    }
    at && dot && utf8_len_of(w) > 5 && !starts_with_str(w, "http")
}

/// Whether a (lower-cased) text seems to hold personal data (see
/// `pii_spec`).
pub fn has_pii_patterns(text: &[char]) -> (r: bool)
    ensures
        r == pii_spec(text@),
{
    let n = text.len();
    let mut i: usize = 0;
    while i < n
        invariant
            n == text@.len(),
            i <= n,
            i < n && !is_ws(text@[i as int]) ==> (i == 0 || is_ws(text@[i - 1])),
            forall|a: int, b: int| 0 <= a < i && word_at(text@, a, b) ==> !#[trigger] email_like(text@.subrange(a, b)),
        decreases n - i,
    {
        if is_whitespace(text[i]) {
            i += 1;
            proof {
                assert forall|a: int, b: int| 0 <= a < i && word_at(text@, a, b) implies !#[trigger] email_like(text@.subrange(a, b)) by {
                    if a == i - 1 {
                        assert(!is_ws(text@[a]));
                    }
                }
            }
        } else {
            let mut j: usize = i;
            while j < n && !is_whitespace(text[j])
                invariant
                    n == text@.len(),
                    i <= j <= n,
                    forall|k: int| i <= k < j ==> !is_ws(#[trigger] text@[k]),
                decreases n - j,
            {
                j += 1;
            }
            let w = sub_chars(text, i, j);
            proof {
                assert(word_at(text@, i as int, j as int));
                assert(w@ == text@.subrange(i as int, j as int));
            }
            if email_like_exec(w.as_slice()) {
                return true;
            }
            proof {
                assert forall|a: int, b: int| 0 <= a < j && word_at(text@, a, b) implies !#[trigger] email_like(text@.subrange(a, b)) by {
                    if a >= i {
                        if a > i {
                            assert(!is_ws(text@[a - 1]));
                        }
                        if b < j {
                            assert(!is_ws(text@[b]));
                        }
                        if b > j {
                            assert(!is_ws(text@[j as int]));
                        }
                        assert(b == j);
                    }
                }
            }
            i = j;
        }
    }
    if n >= 11 {
        let mut s: usize = 0;
        while s <= n - 11
            invariant
                n == text@.len(),
                n >= 11,
                s <= n - 10,
                forall|q: int| 0 <= q < s ==> !#[trigger] ssn_at(text@, q),
            decreases n - s,
        {
            if ssn_at_exec(text, s) {
                return true;
            }
            s += 1;
        }
        proof {
            assert forall|q: int| !#[trigger] ssn_at(text@, q) by {
                if q >= s {
                    assert(q + 11 > n);
                }
            }
        }
    }
    false
}

/// Words that signal destructive intent.
pub open spec fn destructive_keywords() -> Seq<Seq<char>> {
    seq![
        "drop table"@, "delete all"@, "rm -rf"@, "format c:"@, "destroy"@, "wipe all data"@,
        "truncate table"@, "delete database"@,
    ]
}

/// Whether a (lower-cased) text holds a destructive keyword.
pub fn has_destructive_patterns(text: &[char]) -> (r: bool)
    ensures
        r == contains_any(text@, destructive_keywords()),
{
    let kws: [&str; 8] = [
        "drop table", "delete all", "rm -rf", "format c:", "destroy", "wipe all data",
        "truncate table", "delete database",
    ];
    let r = contains_any_of(text, &kws);
    assert(strs_view(kws@) =~= destructive_keywords());
    r
}

/// Text of the personal-data signal.
pub open spec fn pii_description() -> Seq<char> {
    "Content may contain personally identifiable information."@
}

/// Text of the destructive-intent signal.
pub open spec fn destructive_description() -> Seq<char> {
    "Content contains potentially destructive or harmful patterns."@
}

/// Evaluate a request against the pattern rules on its lower-cased content:
/// personal data gives a non-blocking warning, destructive intent a
/// blocking critical signal, in that order.
pub fn evaluate(request: &ConscienceRequest) -> (signals: Vec<ConscienceSignal>)
    ensures
        signals@.len() == (if pii_spec(lowercase(request.content@)) { 1int } else { 0int })
            + (if contains_any(lowercase(request.content@), destructive_keywords()) { 1int } else { 0int }),
        forall|k: int| 0 <= k < signals@.len() ==> (#[trigger] signals@[k]).request_id@ == request.request_id@,
        pii_spec(lowercase(request.content@)) ==> (signals@[0].category == EthicalCategory::Pii
            && signals@[0].severity == Severity::Warning && !signals@[0].should_block
            && signals@[0].description@ == pii_description()),
        contains_any(lowercase(request.content@), destructive_keywords()) ==> (signals@.last().category == EthicalCategory::Destructive
            && signals@.last().severity == Severity::Critical && signals@.last().should_block
            && signals@.last().description@ == destructive_description()),
{
    let lower = lower_chars(request.content.as_str());
    let mut signals: Vec<ConscienceSignal> = Vec::new();
    if has_pii_patterns(lower.as_slice()) {
        signals.push(ConscienceSignal {
            request_id: request.request_id.clone(),
            category: EthicalCategory::Pii,
            severity: Severity::Warning,
            description: "Content may contain personally identifiable information.".to_owned(),
            should_block: false,
        });
    }
    if has_destructive_patterns(lower.as_slice()) {
        signals.push(ConscienceSignal {
            request_id: request.request_id.clone(),
            category: EthicalCategory::Destructive,
            severity: Severity::Critical,
            description: "Content contains potentially destructive or harmful patterns.".to_owned(),
            should_block: true,
        });
    }
    signals
}

} // verus!
