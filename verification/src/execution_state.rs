//! Execution state tracking for the governed execution loop.
use vstd::prelude::*;
use crate::clock::now_rfc3339;
use crate::text::{strings_view, vec_has_str};

verus! {

/// A structured description of why an attempt failed.
#[derive(Debug)]
pub enum StructuredFailure {
    /// An operation ran past its time budget.
    Timeout { operation: String, elapsed_ms: u64, budget_ms: u64 },
    /// Credentials were rejected by a provider.
    AuthenticationFailed { provider: String, hint: String },
    /// A remote endpoint could not be reached.
    ConnectionFailed { endpoint: String, cause: String, retry_eligible: bool },
    /// An action on a resource was refused.
    PermissionDenied { resource: String, action: String, recovery: String },
    /// A named resource does not exist.
    ResourceNotFound { resource_type: String, identifier: String, suggestions: Vec<String> },
}

/// Whether retrying the same approach can help: timeouts can, connection
/// failures when marked eligible, the others cannot.
pub open spec fn retryable_spec(f: StructuredFailure) -> bool {
    match f {
        StructuredFailure::Timeout { .. } => true,
        StructuredFailure::ConnectionFailed { retry_eligible, .. } => retry_eligible,
        _ => false,
    }
}

/// One-line summary of a failure.
pub open spec fn failure_summary_text(f: StructuredFailure) -> Seq<char> {
    match f {
        StructuredFailure::Timeout { operation, .. } => "timeout: "@ + operation@,
        StructuredFailure::AuthenticationFailed { provider, .. } => "authentication failed: "@
            + provider@,
        StructuredFailure::ConnectionFailed { endpoint, .. } => "connection failed: "@ + endpoint@,
        StructuredFailure::PermissionDenied { resource, action, .. } => "permission denied: "@
            + action@ + " on "@ + resource@,
        StructuredFailure::ResourceNotFound { resource_type, identifier, .. } => "not found: "@
            + resource_type@ + " "@ + identifier@,
    }
}

/// Two failures are the same: the same kind with equal fields (the
/// suggestions compared as sequences).
pub open spec fn same_failure(a: StructuredFailure, b: StructuredFailure) -> bool {
    match (a, b) {
        (
            StructuredFailure::Timeout { operation: o1, elapsed_ms: e1, budget_ms: b1 },
            StructuredFailure::Timeout { operation: o2, elapsed_ms: e2, budget_ms: b2 },
        ) => o1 == o2 && e1 == e2 && b1 == b2,
        (
            StructuredFailure::AuthenticationFailed { provider: p1, hint: h1 },
            StructuredFailure::AuthenticationFailed { provider: p2, hint: h2 },
        ) => p1 == p2 && h1 == h2,
        (
            StructuredFailure::ConnectionFailed { endpoint: e1, cause: c1, retry_eligible: r1 },
            StructuredFailure::ConnectionFailed { endpoint: e2, cause: c2, retry_eligible: r2 },
        ) => e1 == e2 && c1 == c2 && r1 == r2,
        (
            StructuredFailure::PermissionDenied { resource: r1, action: a1, recovery: v1 },
            StructuredFailure::PermissionDenied { resource: r2, action: a2, recovery: v2 },
        ) => r1 == r2 && a1 == a2 && v1 == v2,
        (
            StructuredFailure::ResourceNotFound { resource_type: t1, identifier: i1, suggestions: s1 },
            StructuredFailure::ResourceNotFound { resource_type: t2, identifier: i2, suggestions: s2 },
        ) => t1 == t2 && i1 == i2 && s1@ == s2@,
        _ => false,
    }
}

impl Clone for StructuredFailure {
    fn clone(&self) -> (c: Self)
        ensures
            same_failure(c, *self),
            retryable_spec(c) == retryable_spec(*self),
            failure_summary_text(c) == failure_summary_text(*self),
    {
        match self {
            StructuredFailure::Timeout { operation, elapsed_ms, budget_ms } => StructuredFailure::Timeout {
                operation: operation.clone(),
                elapsed_ms: *elapsed_ms,
                budget_ms: *budget_ms,
            },
            StructuredFailure::AuthenticationFailed { provider, hint } => StructuredFailure::AuthenticationFailed {
                provider: provider.clone(),
                hint: hint.clone(),
            },
            StructuredFailure::ConnectionFailed { endpoint, cause, retry_eligible } => StructuredFailure::ConnectionFailed {
                endpoint: endpoint.clone(),
                cause: cause.clone(),
                retry_eligible: *retry_eligible,
            },
            StructuredFailure::PermissionDenied { resource, action, recovery } => StructuredFailure::PermissionDenied {
                resource: resource.clone(),
                action: action.clone(),
                recovery: recovery.clone(),
            },
            StructuredFailure::ResourceNotFound { resource_type, identifier, suggestions } => StructuredFailure::ResourceNotFound {
                resource_type: resource_type.clone(),
                identifier: identifier.clone(),
                suggestions: crate::planner::clone_strings(suggestions),
            },
        }
    }
}

impl StructuredFailure {
    /// Whether the failure is worth retrying with the same approach.
    pub fn is_retryable(&self) -> (r: bool)
        ensures
            r == retryable_spec(*self),
    {
        match self {
            StructuredFailure::Timeout { .. } => true,
            StructuredFailure::ConnectionFailed { retry_eligible, .. } => *retry_eligible,
            _ => false,
        }
    }

    /// One-line summary of the failure.
    pub fn summary(&self) -> (s: String)
        ensures
            s@ == failure_summary_text(*self),
    {
        let mut v: Vec<char> = Vec::new();
        match self {
            StructuredFailure::Timeout { operation, .. } => {
                crate::text::append_str(&mut v, "timeout: ");
                crate::text::append_str(&mut v, operation.as_str());
            },
            StructuredFailure::AuthenticationFailed { provider, .. } => {
                crate::text::append_str(&mut v, "authentication failed: ");
                crate::text::append_str(&mut v, provider.as_str());
            },
            StructuredFailure::ConnectionFailed { endpoint, .. } => {
                crate::text::append_str(&mut v, "connection failed: ");
                crate::text::append_str(&mut v, endpoint.as_str());
            },
            StructuredFailure::PermissionDenied { resource, action, .. } => {
                crate::text::append_str(&mut v, "permission denied: ");
                crate::text::append_str(&mut v, action.as_str());
                crate::text::append_str(&mut v, " on ");
                crate::text::append_str(&mut v, resource.as_str());
            },
            StructuredFailure::ResourceNotFound { resource_type, identifier, .. } => {
                crate::text::append_str(&mut v, "not found: ");
                crate::text::append_str(&mut v, resource_type.as_str());
                crate::text::append_str(&mut v, " ");
                crate::text::append_str(&mut v, identifier.as_str());
            },
        }
        crate::text::string_of(v.as_slice())
    }
}

/// A single execution attempt.
#[derive(Debug)]
pub struct AttemptRecord {
    /// Attempt number, starting at 1.
    pub attempt_number: u32,
    /// Whether the attempt succeeded.
    pub success: bool,
    /// What happened.
    pub detail: String,
    /// Structured failure, when the attempt failed with one.
    pub failure: Option<StructuredFailure>,
    /// RFC 3339 timestamp.
    pub timestamp: String,
}

/// State of an execution across attempts.
#[derive(Debug)]
pub struct ExecutionState {
    /// All attempts so far, oldest first.
    pub attempts: Vec<AttemptRecord>,
    /// Criteria marked as satisfied (no duplicates).
    pub satisfied_criteria: Vec<String>,
    /// Constraints discovered during execution (no duplicates).
    pub discovered_constraints: Vec<String>,
    /// Whether the execution is complete.
    pub complete: bool,
    /// Final result, once complete.
    pub final_result: Option<String>,
}

/// Number of failed attempts among `a`.
pub open spec fn failures_in(a: Seq<AttemptRecord>) -> nat
    decreases a.len(),
{
    if a.len() == 0 {
        0
    } else {
        failures_in(a.drop_last()) + if a.last().success {
            0nat
        } else {
            1nat
        }
    }
}

/// Number of successful attempts among `a`.
pub open spec fn successes_in(a: Seq<AttemptRecord>) -> nat
    decreases a.len(),
{
    if a.len() == 0 {
        0
    } else {
        successes_in(a.drop_last()) + if a.last().success {
            1nat
        } else {
            0nat
        }
    }
}

/// Index of the most recent failed attempt in `a`, if any.
pub open spec fn last_failed_index(a: Seq<AttemptRecord>) -> Option<int>
    decreases a.len(),
{
    if a.len() == 0 {
        None
    } else if !a.last().success {
        Some(a.len() - 1)
    } else {
        last_failed_index(a.drop_last())
    }
}

/// Index of the most recent successful attempt in `a`, if any.
pub open spec fn last_success_index(a: Seq<AttemptRecord>) -> Option<int>
    decreases a.len(),
{
    if a.len() == 0 {
        None
    } else if a.last().success {
        Some(a.len() - 1)
    } else {
        last_success_index(a.drop_last())
    }
}

/// The structured failure of the most recent failed attempt, if it has one.
pub open spec fn last_failure_spec(a: Seq<AttemptRecord>) -> Option<StructuredFailure> {
    match last_failed_index(a) {
        Some(i) => a[i].failure,
        None => None,
    }
}

/// `s` with `x` appended unless it is already present.
pub open spec fn add_unique(s: Seq<Seq<char>>, x: Seq<char>) -> Seq<Seq<char>> {
    if s.contains(x) {
        s
    } else {
        s.push(x)
    }
}

pub proof fn lemma_last_failed_index_bounds(a: Seq<AttemptRecord>)
    ensures
        last_failed_index(a) matches Some(i) ==> 0 <= i < a.len() && !a[i].success,
        last_failed_index(a) is None ==> forall|j: int| 0 <= j < a.len() ==> a[j].success,
    decreases a.len(),
{
    if a.len() > 0 {
        lemma_last_failed_index_bounds(a.drop_last());
        if a.last().success {
            assert forall|j: int| 0 <= j < a.len() - 1 implies a[j] == a.drop_last()[j] by {}
        }
    }
}

pub proof fn lemma_last_success_index_bounds(a: Seq<AttemptRecord>)
    ensures
        last_success_index(a) matches Some(i) ==> 0 <= i < a.len() && a[i].success,
        last_success_index(a) is None ==> successes_in(a) == 0,
    decreases a.len(),
{
    if a.len() > 0 {
        lemma_last_success_index_bounds(a.drop_last());
    }
}

pub proof fn lemma_counts_bounded(a: Seq<AttemptRecord>)
    ensures
        failures_in(a) + successes_in(a) == a.len(),
    decreases a.len(),
{
    if a.len() > 0 {
        lemma_counts_bounded(a.drop_last());
    }
}

impl ExecutionState {
    /// A fresh state: no attempts, nothing satisfied, not complete.
    pub fn new() -> (s: Self)
        ensures
            s.attempts@.len() == 0,
            s.satisfied_criteria@.len() == 0,
            s.discovered_constraints@.len() == 0,
            !s.complete,
            s.final_result is None,
    {
        ExecutionState {
            attempts: Vec::new(),
            satisfied_criteria: Vec::new(),
            discovered_constraints: Vec::new(),
            complete: false,
            final_result: None,
        }
    }

    /// Append an attempt record numbered one past the current count.
    pub fn record_attempt(&mut self, success: bool, detail: &str, failure: Option<StructuredFailure>)
        requires
            old(self).attempts@.len() < u32::MAX,
        ensures
            final(self).attempts@.len() == old(self).attempts@.len() + 1,
            final(self).attempts@.drop_last() == old(self).attempts@,
            final(self).attempts@.last().attempt_number == old(self).attempts@.len() + 1,
            final(self).attempts@.last().success == success,
            final(self).attempts@.last().detail@ == detail@,
            final(self).attempts@.last().failure == failure,
            final(self).satisfied_criteria == old(self).satisfied_criteria,
            final(self).discovered_constraints == old(self).discovered_constraints,
            final(self).complete == old(self).complete,
            final(self).final_result == old(self).final_result,
    {
        let attempt_number = self.attempts.len() as u32 + 1;
        let rec = AttemptRecord {
            attempt_number,
            success,
            detail: detail.to_owned(),
            failure,
            timestamp: now_rfc3339(),
        };
        self.attempts.push(rec);
        assert(self.attempts@.drop_last() =~= old(self).attempts@);
    }

    /// Mark a criterion as satisfied (once).
    pub fn satisfy_criterion(&mut self, criterion: &str)
        ensures
            strings_view(final(self).satisfied_criteria@) == add_unique(
                strings_view(old(self).satisfied_criteria@),
                criterion@,
            ),
            final(self).attempts == old(self).attempts,
            final(self).discovered_constraints == old(self).discovered_constraints,
            final(self).complete == old(self).complete,
            final(self).final_result == old(self).final_result,
    {
        if !vec_has_str(&self.satisfied_criteria, criterion) {
            self.satisfied_criteria.push(criterion.to_owned());
            assert(strings_view(self.satisfied_criteria@) =~= strings_view(
                old(self).satisfied_criteria@,
            ).push(criterion@));
        }
    }

    /// Add a discovered constraint (once).
    pub fn add_constraint(&mut self, constraint: &str)
        ensures
            strings_view(final(self).discovered_constraints@) == add_unique(
                strings_view(old(self).discovered_constraints@),
                constraint@,
            ),
            final(self).attempts == old(self).attempts,
            final(self).satisfied_criteria == old(self).satisfied_criteria,
            final(self).complete == old(self).complete,
            final(self).final_result == old(self).final_result,
    {
        if !vec_has_str(&self.discovered_constraints, constraint) {
            self.discovered_constraints.push(constraint.to_owned());
            assert(strings_view(self.discovered_constraints@) =~= strings_view(
                old(self).discovered_constraints@,
            ).push(constraint@));
        }
    }

    /// Mark the execution complete with a result.
    pub fn mark_complete(&mut self, result: &str)
        ensures
            final(self).complete,
            final(self).final_result matches Some(r) && r@ == result@,
            final(self).attempts == old(self).attempts,
            final(self).satisfied_criteria == old(self).satisfied_criteria,
            final(self).discovered_constraints == old(self).discovered_constraints,
    {
        self.complete = true;
        self.final_result = Some(result.to_owned());
    }

    /// Number of failed attempts.
    pub fn failure_count(&self) -> (n: u32)
        requires
            self.attempts@.len() <= u32::MAX,
        ensures
            n == failures_in(self.attempts@),
    {
        let mut n: u32 = 0;
        let mut i: usize = 0;
        while i < self.attempts.len()
            invariant
                i <= self.attempts@.len() <= u32::MAX,
                n == failures_in(self.attempts@.take(i as int)),
                n <= i,
            decreases self.attempts@.len() - i,
        {
            assert(self.attempts@.take(i + 1).drop_last() =~= self.attempts@.take(i as int));
            if !self.attempts[i].success {
                n += 1;
            }
            i += 1;
        }
        assert(self.attempts@.take(self.attempts@.len() as int) =~= self.attempts@);
        n
    }

    /// Number of successful attempts.
    pub fn success_count(&self) -> (n: u32)
        requires
            self.attempts@.len() <= u32::MAX,
        ensures
            n == successes_in(self.attempts@),
    {
        let mut n: u32 = 0;
        let mut i: usize = 0;
        while i < self.attempts.len()
            invariant
                i <= self.attempts@.len() <= u32::MAX,
                n == successes_in(self.attempts@.take(i as int)),
                n <= i,
            decreases self.attempts@.len() - i,
        {
            assert(self.attempts@.take(i + 1).drop_last() =~= self.attempts@.take(i as int));
            if self.attempts[i].success {
                n += 1;
            }
            i += 1;
        }
        assert(self.attempts@.take(self.attempts@.len() as int) =~= self.attempts@);
        n
    }

    /// Total number of attempts.
    pub fn attempt_count(&self) -> (n: u32)
        requires
            self.attempts@.len() <= u32::MAX,
        ensures
            n == self.attempts@.len(),
    {
        self.attempts.len() as u32
    }

    /// Index of the most recent failed attempt.
    pub fn last_failed_attempt(&self) -> (r: Option<usize>)
        ensures
            r matches Some(i) ==> last_failed_index(self.attempts@) == Some(i as int),
            r is None ==> last_failed_index(self.attempts@) is None,
    {
        let mut i: usize = self.attempts.len();
        assert(self.attempts@.take(i as int) =~= self.attempts@);
        while i > 0
            invariant
                i <= self.attempts@.len(),
                last_failed_index(self.attempts@) == last_failed_index(
                    self.attempts@.take(i as int),
                ),
            decreases i,
        {
            assert(self.attempts@.take(i as int).drop_last() =~= self.attempts@.take(i - 1));
            if !self.attempts[i - 1].success {
                return Some(i - 1);
            }
            i -= 1;
        }
        None
    }

    /// Index of the most recent successful attempt.
    pub fn last_successful_attempt(&self) -> (r: Option<usize>)
        ensures
            r matches Some(i) ==> last_success_index(self.attempts@) == Some(i as int),
            r is None ==> last_success_index(self.attempts@) is None,
    {
        let mut i: usize = self.attempts.len();
        assert(self.attempts@.take(i as int) =~= self.attempts@);
        while i > 0
            invariant
                i <= self.attempts@.len(),
                last_success_index(self.attempts@) == last_success_index(
                    self.attempts@.take(i as int),
                ),
            decreases i,
        {
            assert(self.attempts@.take(i as int).drop_last() =~= self.attempts@.take(i - 1));
            if self.attempts[i - 1].success {
                return Some(i - 1);
            }
            i -= 1;
        }
        None
    }

    /// The structured failure of the most recent failed attempt, if any.
    pub fn last_failure(&self) -> (r: Option<&StructuredFailure>)
        ensures
            r matches Some(f) ==> last_failure_spec(self.attempts@) == Some(*f),
            r is None ==> last_failure_spec(self.attempts@) is None,
    {
        proof {
            lemma_last_failed_index_bounds(self.attempts@);
        }
        match self.last_failed_attempt() {
            Some(i) => match &self.attempts[i].failure {
                Some(f) => Some(f),
                None => None,
            },
            None => None,
        }
    }

    /// Whether every criterion in `criteria` is marked satisfied.
    pub fn all_criteria_met(&self, criteria: &[String]) -> (r: bool)
        ensures
            r == (forall|k: int|
                0 <= k < criteria@.len() ==> strings_view(self.satisfied_criteria@).contains(
                    #[trigger] criteria@[k]@,
                )),
    {
        let mut k: usize = 0;
        while k < criteria.len()
            invariant
                k <= criteria@.len(),
                forall|j: int|
                    0 <= j < k ==> strings_view(self.satisfied_criteria@).contains(
                        #[trigger] criteria@[j]@,
                    ),
            decreases criteria@.len() - k,
        {
            if !vec_has_str(&self.satisfied_criteria, criteria[k].as_str()) {
                return false;
            }
            k += 1;
        }
        true
    }
}

impl Default for ExecutionState {
    fn default() -> (s: Self)
        ensures
            s.attempts@.len() == 0,
            s.satisfied_criteria@.len() == 0,
            s.discovered_constraints@.len() == 0,
            !s.complete,
            s.final_result is None,
    {
        Self::new()
    }
}

} // verus!
