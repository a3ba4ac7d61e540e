//! Execution governor: drives the strategy progression of an autonomous
//! execution loop. It decides whether to continue, which strategy to try
//! next, and when to escalate or abort, so that a loop converges on a result
//! or fails gracefully.
use vstd::prelude::*;
use crate::clock::now_unix_ms;
use crate::constraint_store::{ConstraintStore, appended};
use crate::execution_state::{same_failure, 
    ExecutionState, StructuredFailure, failures_in, last_failed_index, last_failure_spec,
    last_success_index, lemma_counts_bounded, lemma_last_failed_index_bounds,
    lemma_last_success_index_bounds, retryable_spec, successes_in, failure_summary_text,
};
use crate::planner::GoalFrame;
use crate::text::{
    append_chars, append_str, chars_of, decimal, lower_chars, lowercase, seq_contains,
    string_of, strings_view, trim, trim_chars, u64_to_decimal, vec_has_str, contains,
};

verus! {

/// Strategy progression of the execution loop.
#[derive(Debug, Clone, Copy, PartialEq, Eq, Structural)]
pub enum GovernorStrategy {
    /// First attempt: try the suggested approach directly.
    Initial,
    /// Retry the same approach (with the retry count).
    Retry(u32),
    /// Try a different approach.
    Alternative,
    /// Escalate to a human or higher authority.
    Escalate,
    /// Give up.
    Abort,
}

/// Retries allowed before moving to an alternative approach.
pub const MAX_RETRIES: u32 = 3;

/// The strategy that follows `s` after a failure, given whether the last
/// failure is retryable.
pub open spec fn next_strategy(s: GovernorStrategy, retryable: bool) -> GovernorStrategy {
    match s {
        GovernorStrategy::Initial => if retryable {
            GovernorStrategy::Retry(1)
        } else {
            GovernorStrategy::Alternative
        },
        GovernorStrategy::Retry(n) => if retryable && n < MAX_RETRIES {
            GovernorStrategy::Retry((n + 1) as u32)
        } else {
            GovernorStrategy::Alternative
        },
        GovernorStrategy::Alternative => GovernorStrategy::Escalate,
        GovernorStrategy::Escalate => GovernorStrategy::Abort,
        GovernorStrategy::Abort => GovernorStrategy::Abort,
    }
}

/// Display text of a strategy.
pub open spec fn strategy_text(s: GovernorStrategy) -> Seq<char> {
    match s {
        GovernorStrategy::Initial => "Initial"@,
        GovernorStrategy::Retry(n) => "Retry("@ + decimal(n as nat) + ")"@,
        GovernorStrategy::Alternative => "Alternative"@,
        GovernorStrategy::Escalate => "Escalate"@,
        GovernorStrategy::Abort => "Abort"@,
    }
}

impl GovernorStrategy {
    /// Display text, e.g. `Retry(2)`.
    pub fn to_string(&self) -> (s: String)
        ensures
            s@ == strategy_text(*self),
    {
        match self {
            GovernorStrategy::Initial => "Initial".to_owned(),
            GovernorStrategy::Retry(n) => {
                let mut v: Vec<char> = Vec::new();
                append_str(&mut v, "Retry(");
                let d = u64_to_decimal(*n as u64);
                append_chars(&mut v, d.as_slice());
                append_str(&mut v, ")");
                string_of(v.as_slice())
            },
            GovernorStrategy::Alternative => "Alternative".to_owned(),
            GovernorStrategy::Escalate => "Escalate".to_owned(),
            GovernorStrategy::Abort => "Abort".to_owned(),
        }
    }
}

/// Outcome of a governed execution loop.
#[derive(Debug, Clone, PartialEq, Eq)]
pub enum GovernedResult {
    /// Completed successfully.
    Success(String),
    /// Paused: needs user input to continue.
    NeedsInput(String),
    /// Escalated: needs human or higher-authority help.
    Escalated(String),
    /// Aborted after exhausting strategies.
    Aborted(String),
}

/// The message carried by a result.
pub open spec fn result_message(r: GovernedResult) -> Seq<char> {
    match r {
        GovernedResult::Success(m) => m@,
        GovernedResult::NeedsInput(m) => m@,
        GovernedResult::Escalated(m) => m@,
        GovernedResult::Aborted(m) => m@,
    }
}

impl GovernedResult {
    /// Whether this is a successful completion.
    pub fn is_success(&self) -> (b: bool)
        ensures
            b == (*self is Success),
    {
        match self {
            GovernedResult::Success(_) => true,
            _ => false,
        }
    }

    /// The inner message, whatever the variant.
    pub fn message(&self) -> (m: &str)
        ensures
            m@ == result_message(*self),
    {
        match self {
            GovernedResult::Success(msg) => msg.as_str(),
            GovernedResult::NeedsInput(msg) => msg.as_str(),
            GovernedResult::Escalated(msg) => msg.as_str(),
            GovernedResult::Aborted(msg) => msg.as_str(),
        }
    }
}

/// Whether a result text meets the done criteria: with no criteria, any
/// result that is not blank; otherwise every criterion either occurs in the
/// result (ignoring case) or was marked satisfied.
pub open spec fn done_spec(
    criteria: Seq<Seq<char>>,
    satisfied: Seq<Seq<char>>,
    result: Seq<char>,
) -> bool {
    if criteria.len() == 0 {
        trim(result).len() > 0
    } else {
        forall|k: int|
            0 <= k < criteria.len() ==> seq_contains(lowercase(result), lowercase(#[trigger] criteria[k]))
                || satisfied.contains(criteria[k])
    }
}

/// Whether the loop may continue at time `now_ms`: not complete, not
/// aborted, under the iteration limit, and not past the time budget (the
/// elapsed time may reach it; a zero budget is spent from the start).
pub open spec fn continue_spec(
    complete: bool,
    strategy: GovernorStrategy,
    attempts: u32,
    max_iterations: u32,
    start_ms: u64,
    budget_ms: u64,
    now_ms: u64,
) -> bool {
    let elapsed: int = if now_ms >= start_ms {
        now_ms - start_ms
    } else {
        0
    };
    !complete && strategy != GovernorStrategy::Abort && attempts < max_iterations && budget_ms > 0
        && elapsed <= budget_ms
}

/// Constraint text discovered from a failure, if its kind yields one.
pub open spec fn discovered_constraint(f: StructuredFailure) -> Option<Seq<char>> {
    match f {
        StructuredFailure::PermissionDenied { resource, action, .. } => Some(
            "Cannot "@ + action@ + " on "@ + resource@,
        ),
        StructuredFailure::AuthenticationFailed { provider, .. } => Some(
            "No valid credentials for "@ + provider@,
        ),
        StructuredFailure::ResourceNotFound { resource_type, identifier, .. } => Some(
            resource_type@ + " '"@ + identifier@ + "' does not exist"@,
        ),
        _ => None,
    }
}

/// Summary of the failures so far, for result messages; empty when no
/// attempt has failed.
pub open spec fn failure_summary_spec(
    attempts: Seq<crate::execution_state::AttemptRecord>,
    n_attempts: u32,
    n_constraints: nat,
) -> Seq<char> {
    let fc = failures_in(attempts);
    if fc == 0 {
        Seq::<char>::empty()
    } else {
        let detail = match last_failed_index(attempts) {
            Some(i) => attempts[i].detail@,
            None => "unknown"@,
        };
        let info = if n_constraints == 0 {
            Seq::<char>::empty()
        } else {
            " Discovered "@ + decimal(n_constraints) + " constraint(s)."@
        };
        "Failures: "@ + decimal(fc) + "/"@ + decimal(n_attempts as nat) + ". Last failure: "@
            + detail + "."@ + info
    }
}

/// Controls the strategy progression of an execution loop.
pub struct ExecutionGovernor {
    goal: GoalFrame,
    state: ExecutionState,
    constraints: ConstraintStore,
    strategy: GovernorStrategy,
    attempts: u32,
    start_time_ms: u64,
}

impl ExecutionGovernor {
    /// The governor's bookkeeping agrees: one attempt record per attempt.
    pub closed spec fn wf(&self) -> bool {
        self.state.attempts@.len() == self.attempts
    }

    pub closed spec fn strategy_spec(&self) -> GovernorStrategy {
        self.strategy
    }

    pub closed spec fn attempts_spec(&self) -> u32 {
        self.attempts
    }

    pub closed spec fn start_spec(&self) -> u64 {
        self.start_time_ms
    }

    pub closed spec fn state_spec(&self) -> &ExecutionState {
        &self.state
    }

    pub closed spec fn goal_spec(&self) -> &GoalFrame {
        &self.goal
    }

    pub closed spec fn constraints_spec(&self) -> &ConstraintStore {
        &self.constraints
    }

    /// Whether the last failure allows a retry (true when there is none).
    pub open spec fn last_retryable(&self) -> bool {
        match last_failure_spec(self.state_spec().attempts@) {
            Some(f) => retryable_spec(f),
            None => true,
        }
    }

    /// A governor for `goal`, started at `now_ms`.
    pub fn new_at(goal: GoalFrame, constraints: ConstraintStore, now_ms: u64) -> (g: Self)
        ensures
            g.wf(),
            g.strategy_spec() == GovernorStrategy::Initial,
            g.attempts_spec() == 0,
            g.start_spec() == now_ms,
            *g.goal_spec() == goal,
            g.constraints_spec()@ == constraints@,
            !g.state_spec().complete,
            g.state_spec().satisfied_criteria@.len() == 0,
            g.state_spec().discovered_constraints@.len() == 0,
    {
        ExecutionGovernor {
            goal,
            state: ExecutionState::new(),
            constraints,
            strategy: GovernorStrategy::Initial,
            attempts: 0,
            start_time_ms: now_ms,
        }
    }

    /// A governor for `goal`, started now.
    pub fn new(goal: GoalFrame, constraints: ConstraintStore) -> (g: Self)
        ensures
            g.wf(),
            g.strategy_spec() == GovernorStrategy::Initial,
            g.attempts_spec() == 0,
            *g.goal_spec() == goal,
            g.constraints_spec()@ == constraints@,
            !g.state_spec().complete,
    {
        let now = now_unix_ms();
        Self::new_at(goal, constraints, now)
    }

    /// Whether the loop should continue at time `now_ms`: not complete, not
    /// aborted, under the iteration limit and within the time budget.
    pub fn should_continue_at(&self, now_ms: u64) -> (b: bool)
        ensures
            b == continue_spec(
                self.state_spec().complete,
                self.strategy_spec(),
                self.attempts_spec(),
                self.goal_spec().max_iterations,
                self.start_spec(),
                self.goal_spec().time_budget_ms,
                now_ms,
            ),
    {
        if self.state.complete {
            return false;
        }
        if self.strategy == GovernorStrategy::Abort {
            return false;
        }
        if self.attempts >= self.goal.max_iterations {
            return false;
        }
        let elapsed = if now_ms >= self.start_time_ms {
            now_ms - self.start_time_ms
        } else {
            0
        };
        self.goal.time_budget_ms > 0 && elapsed <= self.goal.time_budget_ms
    }

    /// Whether the loop should continue now: `should_continue_at` at the
    /// clock's current reading. The reading is the clock's own, so the
    /// result is stated for some time `now`; in particular a complete or
    /// aborted governor, one at its iteration limit, and one with a zero
    /// time budget never continue.
    pub fn should_continue(&self) -> (b: bool)
        ensures
            exists|now: u64|
                b == #[trigger] continue_spec(
                    self.state_spec().complete,
                    self.strategy_spec(),
                    self.attempts_spec(),
                    self.goal_spec().max_iterations,
                    self.start_spec(),
                    self.goal_spec().time_budget_ms,
                    now,
                ),
            b ==> !self.state_spec().complete,
            b ==> self.strategy_spec() != GovernorStrategy::Abort,
            b ==> self.attempts_spec() < self.goal_spec().max_iterations,
            b ==> self.goal_spec().time_budget_ms > 0,
    {
        let now = now_unix_ms();
        self.should_continue_at(now)
    }

    /// Move to the next strategy after a failure.
    pub fn advance_strategy(&mut self)
        requires
            old(self).wf(),
        ensures
            final(self).wf(),
            final(self).strategy_spec() == next_strategy(old(self).strategy_spec(), old(self).last_retryable()),
            final(self).attempts_spec() == old(self).attempts_spec(),
            final(self).state_spec() == old(self).state_spec(),
            final(self).goal_spec() == old(self).goal_spec(),
            final(self).constraints_spec() == old(self).constraints_spec(),
            final(self).start_spec() == old(self).start_spec(),
    {
        let retryable = match self.state.last_failure() {
            Some(f) => f.is_retryable(),
            None => true,
        };
        let next = match self.strategy {
            GovernorStrategy::Initial => if retryable {
                GovernorStrategy::Retry(1)
            } else {
                GovernorStrategy::Alternative
            },
            GovernorStrategy::Retry(n) => if retryable && n < MAX_RETRIES {
                GovernorStrategy::Retry(n + 1)
            } else {
                GovernorStrategy::Alternative
            },
            GovernorStrategy::Alternative => GovernorStrategy::Escalate,
            GovernorStrategy::Escalate => GovernorStrategy::Abort,
            GovernorStrategy::Abort => GovernorStrategy::Abort,
        };
        self.strategy = next;
    }

    /// Record an attempt and its outcome.
    pub fn record_attempt(&mut self, success: bool, detail: &str)
        requires
            old(self).wf(),
            old(self).attempts_spec() < u32::MAX,
        ensures
            final(self).wf(),
            final(self).attempts_spec() == old(self).attempts_spec() + 1,
            final(self).state_spec().attempts@.drop_last() == old(self).state_spec().attempts@,
            final(self).state_spec().attempts@.last().success == success,
            final(self).state_spec().attempts@.last().detail@ == detail@,
            final(self).state_spec().attempts@.last().failure is None,
            final(self).state_spec().complete == old(self).state_spec().complete,
            final(self).state_spec().final_result == old(self).state_spec().final_result,
            final(self).state_spec().satisfied_criteria == old(self).state_spec().satisfied_criteria,
            final(self).strategy_spec() == old(self).strategy_spec(),
            final(self).goal_spec() == old(self).goal_spec(),
            final(self).constraints_spec() == old(self).constraints_spec(),
            final(self).start_spec() == old(self).start_spec(),
    {
        self.attempts += 1;
        self.state.record_attempt(success, detail, None);
    }

    /// Record a structured failure; permission, authentication and
    /// missing-resource failures also teach a hard constraint.
    pub fn record_failure(&mut self, failure: &StructuredFailure)
        requires
            old(self).wf(),
            old(self).attempts_spec() < u32::MAX,
        ensures
            final(self).wf(),
            final(self).attempts_spec() == old(self).attempts_spec() + 1,
            final(self).state_spec().attempts@.drop_last() == old(self).state_spec().attempts@,
            !final(self).state_spec().attempts@.last().success,
            final(self).state_spec().attempts@.last().detail@ == failure_summary_text(*failure),
            final(self).state_spec().attempts@.last().failure matches Some(f) && same_failure(f, *failure)
                && retryable_spec(f) == retryable_spec(*failure),
            final(self).state_spec().complete == old(self).state_spec().complete,
            final(self).strategy_spec() == old(self).strategy_spec(),
            final(self).goal_spec() == old(self).goal_spec(),
            final(self).start_spec() == old(self).start_spec(),
            match discovered_constraint(*failure) {
                Some(c) => final(self).constraints_spec()@.len() == old(self).constraints_spec()@.len() + 1
                    && final(self).constraints_spec()@.drop_last() == old(self).constraints_spec()@
                    && final(self).constraints_spec()@.last().description@ == c
                    && final(self).constraints_spec()@.last().learned_from@ == "attempt #"@ + decimal(
                    final(self).attempts_spec() as nat,
                ) && strings_view(final(self).state_spec().discovered_constraints@)
                    == crate::execution_state::add_unique(
                    strings_view(old(self).state_spec().discovered_constraints@),
                    c,
                ),
                None => final(self).constraints_spec()@ == old(self).constraints_spec()@
                    && final(self).state_spec().discovered_constraints
                    == old(self).state_spec().discovered_constraints,
            },
    {
        self.attempts += 1;
        let summary = failure.summary();
        self.state.record_attempt(false, summary.as_str(), Some(failure.clone()));
        let mut text: Vec<char> = Vec::new();
        let found = match failure {
            StructuredFailure::PermissionDenied { resource, action, .. } => {
                append_str(&mut text, "Cannot ");
                append_str(&mut text, action.as_str());
                append_str(&mut text, " on ");
                append_str(&mut text, resource.as_str());
                true
            },
            StructuredFailure::AuthenticationFailed { provider, .. } => {
                append_str(&mut text, "No valid credentials for ");
                append_str(&mut text, provider.as_str());
                true
            },
            StructuredFailure::ResourceNotFound { resource_type, identifier, .. } => {
                append_str(&mut text, resource_type.as_str());
                append_str(&mut text, " '");
                append_str(&mut text, identifier.as_str());
                append_str(&mut text, "' does not exist");
                true
            },
            _ => false,
        };
        if found {
            let constraint = string_of(text.as_slice());
            let mut src: Vec<char> = Vec::new();
            append_str(&mut src, "attempt #");
            let d = u64_to_decimal(self.attempts as u64);
            append_chars(&mut src, d.as_slice());
            let source = string_of(src.as_slice());
            self.constraints.add_hard(constraint.as_str(), Some(source.as_str()));
            self.state.add_constraint(constraint.as_str());
        }
    }

    /// Whether `result` meets the done criteria (see `done_spec`).
    pub fn evaluate_done(&self, result: &str) -> (b: bool)
        ensures
            b == done_spec(
                strings_view(self.goal_spec().done_criteria@),
                strings_view(self.state_spec().satisfied_criteria@),
                result@,
            ),
    {
        let ghost crit = strings_view(self.goal.done_criteria@);
        let ghost sat = strings_view(self.state.satisfied_criteria@);
        if self.goal.done_criteria.len() == 0 {
            let rc = chars_of(result);
            let t = trim_chars(rc.as_slice());
            return t.len() > 0;
        }
        let result_lower = lower_chars(result);
        let mut k: usize = 0;
        while k < self.goal.done_criteria.len()
            invariant
                k <= self.goal.done_criteria@.len(),
                crit == strings_view(self.goal.done_criteria@),
                sat == strings_view(self.state.satisfied_criteria@),
                result_lower@ == lowercase(result@),
                forall|j: int|
                    0 <= j < k ==> seq_contains(lowercase(result@), lowercase(#[trigger] crit[j]))
                        || sat.contains(crit[j]),
            decreases self.goal.done_criteria@.len() - k,
        {
            let c = &self.goal.done_criteria[k];
            let cl = lower_chars(c.as_str());
            assert(crit[k as int] == c@);
            if !contains(result_lower.as_slice(), cl.as_slice()) && !vec_has_str(
                &self.state.satisfied_criteria,
                c.as_str(),
            ) {
                return false;
            }
            k += 1;
        }
        true
    }

    /// Mark a done criterion as satisfied.
    pub fn satisfy_criterion(&mut self, criterion: &str)
        requires
            old(self).wf(),
        ensures
            final(self).wf(),
            strings_view(final(self).state_spec().satisfied_criteria@)
                == crate::execution_state::add_unique(
                strings_view(old(self).state_spec().satisfied_criteria@),
                criterion@,
            ),
            final(self).state_spec().attempts == old(self).state_spec().attempts,
            final(self).state_spec().complete == old(self).state_spec().complete,
            final(self).strategy_spec() == old(self).strategy_spec(),
            final(self).attempts_spec() == old(self).attempts_spec(),
            final(self).goal_spec() == old(self).goal_spec(),
            final(self).constraints_spec() == old(self).constraints_spec(),
            final(self).start_spec() == old(self).start_spec(),
    {
        self.state.satisfy_criterion(criterion);
    }

    /// Mark the execution complete with a final result.
    pub fn mark_complete(&mut self, result: &str)
        requires
            old(self).wf(),
        ensures
            final(self).wf(),
            final(self).state_spec().complete,
            final(self).state_spec().final_result matches Some(r) && r@ == result@,
            final(self).state_spec().attempts == old(self).state_spec().attempts,
            final(self).state_spec().satisfied_criteria == old(self).state_spec().satisfied_criteria,
            final(self).strategy_spec() == old(self).strategy_spec(),
            final(self).attempts_spec() == old(self).attempts_spec(),
            final(self).goal_spec() == old(self).goal_spec(),
            final(self).constraints_spec() == old(self).constraints_spec(),
            final(self).start_spec() == old(self).start_spec(),
    {
        self.state.mark_complete(result);
    }

    /// Override the current strategy (used by supervisors that decide the
    /// progression themselves).
    pub fn set_strategy(&mut self, strategy: GovernorStrategy)
        requires
            old(self).wf(),
        ensures
            final(self).wf(),
            final(self).strategy_spec() == strategy,
            final(self).attempts_spec() == old(self).attempts_spec(),
            final(self).state_spec() == old(self).state_spec(),
            final(self).goal_spec() == old(self).goal_spec(),
            final(self).constraints_spec() == old(self).constraints_spec(),
            final(self).start_spec() == old(self).start_spec(),
    {
        self.strategy = strategy;
    }

    /// The failure summary included in escalation and abort messages.
    pub open spec fn summary_spec(&self) -> Seq<char> {
        failure_summary_spec(
            self.state_spec().attempts@,
            self.attempts_spec(),
            self.constraints_spec()@.len(),
        )
    }

    /// A short summary of the failures so far.
    pub fn failure_summary(&self) -> (s: String)
        requires
            self.wf(),
        ensures
            s@ == self.summary_spec(),
    {
        proof {
            reveal_strlit("");
        }
        let fc = self.state.failure_count();
        if fc == 0 {
            return "".to_owned();
        }
        proof {
            lemma_last_failed_index_bounds(self.state.attempts@);
        }
        let mut v: Vec<char> = Vec::new();
        append_str(&mut v, "Failures: ");
        let d = u64_to_decimal(fc as u64);
        append_chars(&mut v, d.as_slice());
        append_str(&mut v, "/");
        let d = u64_to_decimal(self.attempts as u64);
        append_chars(&mut v, d.as_slice());
        append_str(&mut v, ". Last failure: ");
        match self.state.last_failed_attempt() {
            Some(i) => append_str(&mut v, self.state.attempts[i].detail.as_str()),
            None => append_str(&mut v, "unknown"),
        }
        append_str(&mut v, ".");
        if !self.constraints.is_empty() {
            append_str(&mut v, " Discovered ");
            let d = u64_to_decimal(self.constraints.len() as u64);
            append_chars(&mut v, d.as_slice());
            append_str(&mut v, " constraint(s).");
        }
        string_of(v.as_slice())
    }

    /// The current outcome: success when complete (or when the last
    /// successful attempt meets the done criteria), otherwise escalated,
    /// aborted or still in progress according to the strategy.
    pub fn result(&self) -> (r: GovernedResult)
        requires
            self.wf(),
        ensures
            ({
                let st = self.state_spec();
                let a = st.attempts@;
                if st.complete && st.final_result is Some {
                    r is Success && result_message(r) == st.final_result->0@
                } else if successes_in(a) > 0 && done_spec(
                    strings_view(self.goal_spec().done_criteria@),
                    strings_view(st.satisfied_criteria@),
                    a[last_success_index(a)->0].detail@,
                ) {
                    r is Success && result_message(r) == a[last_success_index(a)->0].detail@
                } else if self.strategy_spec() == GovernorStrategy::Escalate {
                    r is Escalated && result_message(r) == "Execution escalated after "@ + decimal(
                        self.attempts_spec() as nat,
                    ) + " attempts. "@ + self.summary_spec()
                } else if self.strategy_spec() == GovernorStrategy::Abort {
                    r is Aborted && result_message(r) == "Execution aborted after "@ + decimal(
                        self.attempts_spec() as nat,
                    ) + " attempts. "@ + self.summary_spec()
                } else {
                    r is NeedsInput && result_message(r) == "Execution in progress (strategy: "@
                        + strategy_text(self.strategy_spec()) + ", attempts: "@ + decimal(
                        self.attempts_spec() as nat,
                    ) + "/"@ + decimal(self.goal_spec().max_iterations as nat) + ")"@
                }
            }),
    {
        if self.state.complete {
            match &self.state.final_result {
                Some(res) => {
                    return GovernedResult::Success(res.clone());
                },
                None => {},
            }
        }
        if self.state.success_count() > 0 {
            proof {
                lemma_last_success_index_bounds(self.state.attempts@);
            }
            match self.state.last_successful_attempt() {
                Some(i) => {
                    let detail = self.state.attempts[i].detail.as_str();
                    if self.evaluate_done(detail) {
                        return GovernedResult::Success(detail.to_owned());
                    }
                },
                None => {},
            }
        }
        match self.strategy {
            GovernorStrategy::Escalate => {
                let mut v: Vec<char> = Vec::new();
                append_str(&mut v, "Execution escalated after ");
                let d = u64_to_decimal(self.attempts as u64);
                append_chars(&mut v, d.as_slice());
                append_str(&mut v, " attempts. ");
                let s = self.failure_summary();
                append_str(&mut v, s.as_str());
                GovernedResult::Escalated(string_of(v.as_slice()))
            },
            GovernorStrategy::Abort => {
                let mut v: Vec<char> = Vec::new();
                append_str(&mut v, "Execution aborted after ");
                let d = u64_to_decimal(self.attempts as u64);
                append_chars(&mut v, d.as_slice());
                append_str(&mut v, " attempts. ");
                let s = self.failure_summary();
                append_str(&mut v, s.as_str());
                GovernedResult::Aborted(string_of(v.as_slice()))
            },
            _ => {
                let mut v: Vec<char> = Vec::new();
                append_str(&mut v, "Execution in progress (strategy: ");
                let st = self.strategy.to_string();
                append_str(&mut v, st.as_str());
                append_str(&mut v, ", attempts: ");
                let d = u64_to_decimal(self.attempts as u64);
                append_chars(&mut v, d.as_slice());
                append_str(&mut v, "/");
                let d = u64_to_decimal(self.goal.max_iterations as u64);
                append_chars(&mut v, d.as_slice());
                append_str(&mut v, ")");
                GovernedResult::NeedsInput(string_of(v.as_slice()))
            },
        }
    }

    /// The current strategy.
    pub fn strategy(&self) -> (s: &GovernorStrategy)
        ensures
            *s == self.strategy_spec(),
    {
        &self.strategy
    }

    /// The number of attempts so far.
    pub fn attempts(&self) -> (n: u32)
        ensures
            n == self.attempts_spec(),
    {
        self.attempts
    }

    /// The goal being pursued.
    pub fn goal(&self) -> (g: &GoalFrame)
        ensures
            g == self.goal_spec(),
    {
        &self.goal
    }

    /// The execution state.
    pub fn state(&self) -> (s: &ExecutionState)
        ensures
            s == self.state_spec(),
    {
        &self.state
    }

    /// The constraint store.
    pub fn constraints(&self) -> (c: &ConstraintStore)
        ensures
            c == self.constraints_spec(),
    {
        &self.constraints
    }

    /// The constraint store, for adding or removing constraints.
    pub fn constraints_mut(&mut self) -> (c: &mut ConstraintStore)
        ensures
            *c == *old(self).constraints_spec(),
            *final(self).constraints_spec() == *final(c),
            final(self).strategy_spec() == old(self).strategy_spec(),
            final(self).attempts_spec() == old(self).attempts_spec(),
            final(self).state_spec() == old(self).state_spec(),
            final(self).goal_spec() == old(self).goal_spec(),
            final(self).start_spec() == old(self).start_spec(),
    {
        &mut self.constraints
    }
}


/// Steps left before the strategy ladder reaches `Abort`, at most.
pub open spec fn steps_to_abort(s: GovernorStrategy) -> nat {
    match s {
        GovernorStrategy::Initial => (MAX_RETRIES + 3) as nat,
        GovernorStrategy::Retry(n) => if n <= MAX_RETRIES {
            (MAX_RETRIES - n + 3) as nat
        } else {
            3
        },
        GovernorStrategy::Alternative => 2,
        GovernorStrategy::Escalate => 1,
        GovernorStrategy::Abort => 0,
    }
}

/// The strategy after one advance per entry of `retryable`.
pub open spec fn advance_all(s: GovernorStrategy, retryable: Seq<bool>) -> GovernorStrategy
    decreases retryable.len(),
{
    if retryable.len() == 0 {
        s
    } else {
        advance_all(next_strategy(s, retryable[0]), retryable.drop_first())
    }
}

/// `Abort` is terminal, and every other strategy moves strictly closer to it
/// on each advance, whatever the failures were.
pub proof fn lemma_ladder_descends(s: GovernorStrategy, retryable: bool)
    ensures
        s == GovernorStrategy::Abort ==> next_strategy(s, retryable) == GovernorStrategy::Abort,
        s != GovernorStrategy::Abort ==> steps_to_abort(next_strategy(s, retryable)) < steps_to_abort(s),
{
}

/// However the failures fall, a governor that keeps failing aborts after at
/// most `MAX_RETRIES + 3` advances from its initial strategy, and stays
/// aborted.
pub proof fn lemma_ladder_reaches_abort(s: GovernorStrategy, retryable: Seq<bool>)
    requires
        retryable.len() >= steps_to_abort(s),
    ensures
        advance_all(s, retryable) == GovernorStrategy::Abort,
    decreases retryable.len(),
{
    if retryable.len() > 0 {
        lemma_ladder_descends(s, retryable[0]);
        lemma_ladder_reaches_abort(next_strategy(s, retryable[0]), retryable.drop_first());
    }
}

/// A result is done for a goal with criteria exactly when it meets every
/// one of them: a result that misses a criterion that was not already
/// satisfied (its text does not occur in the result, ignoring case) is not
/// done, whatever the other criteria; one that meets them all is.
pub proof fn lemma_done_needs_every_criterion(criteria: Seq<Seq<char>>, satisfied: Seq<Seq<char>>, result: Seq<char>)
    ensures
        forall|k: int| 0 <= k < criteria.len()
            && !seq_contains(lowercase(result), lowercase(#[trigger] criteria[k]))
            && !satisfied.contains(criteria[k]) ==> !done_spec(criteria, satisfied, result),
        criteria.len() > 0 && (forall|k: int| 0 <= k < criteria.len() ==>
            seq_contains(lowercase(result), lowercase(#[trigger] criteria[k])) || satisfied.contains(criteria[k]))
            ==> done_spec(criteria, satisfied, result),
{
}

} // verus!
