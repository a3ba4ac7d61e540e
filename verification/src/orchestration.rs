//! Scheduled orchestration jobs and the log of their runs.
//!
//! A job's significance policy carries a floating-point threshold, so the
//! book is generic over the policy type; the library never looks inside it.
use vstd::prelude::*;
use crate::cron::{cron_due, cron_matches, CronTime};
use crate::clock::now_rfc3339;
use crate::text::{chars_of, count_any_of, count_contained, contains, lowercase, str_eq, strs_view, to_lowercase, append_str, string_of};

verus! {

/// Number of run logs the book keeps; older ones are dropped first.
pub const LOG_RETENTION: usize = 1000;

/// How a job executes.
#[derive(Debug, Clone, Copy, PartialEq, Eq)]
pub enum JobMode {
    /// Quick check with the local model.
    IdCheck,
    /// Full agentic run under the governor.
    AgenticRun,
}

/// What to do with a job's result.
#[derive(Debug, Clone, Copy, PartialEq, Eq)]
pub enum SignificanceDecision {
    /// Log it silently.
    SilentLog,
    /// Start an agentic run to handle it.
    SpawnAgentic,
    /// Ask for the mentor's attention.
    FlagMentor,
}

/// One completed run of a job.
#[derive(Debug, Clone)]
pub struct OrchestrationJobLog {
    pub job_id: String,
    pub run_id: String,
    /// RFC 3339 time of the run.
    pub ran_at: String,
    pub result: String,
    pub decision: SignificanceDecision,
    pub duration_ms: u64,
}

/// A scheduled job; `P` is its significance policy.
#[derive(Debug, Clone)]
pub struct OrchestrationJob<P> {
    pub job_id: String,
    pub name: String,
    /// Cron expression (UTC).
    pub cron_expression: String,
    pub mode: JobMode,
    /// Goal of the run, for agentic jobs.
    pub goal_template: Option<String>,
    pub enabled: bool,
    pub significance_policy: P,
    pub created_at: String,
    pub updated_at: String,
}

/// The jobs and the retained run logs.
#[derive(Debug)]
pub struct JobBook<P> {
    pub jobs: Vec<OrchestrationJob<P>>,
    pub logs: Vec<OrchestrationJobLog>,
}

/// Index of the first job with this id.
pub open spec fn first_job<P>(jobs: Seq<OrchestrationJob<P>>, id: Seq<char>) -> Option<int>
    decreases jobs.len(),
{
    if jobs.len() == 0 {
        None
    } else {
        match first_job(jobs.drop_last(), id) {
            Some(i) => Some(i),
            None => if jobs.last().job_id@ == id {
                Some(jobs.len() - 1)
            } else {
                None
            },
        }
    }
}

/// The jobs whose id differs from `id`, in order.
pub open spec fn jobs_without<P>(jobs: Seq<OrchestrationJob<P>>, id: Seq<char>) -> Seq<OrchestrationJob<P>>
    decreases jobs.len(),
{
    if jobs.len() == 0 {
        Seq::empty()
    } else {
        let rest = jobs_without(jobs.drop_last(), id);
        if jobs.last().job_id@ == id {
            rest
        } else {
            rest.push(jobs.last())
        }
    }
}

/// The logs of one job, or all logs, in order.
pub open spec fn logs_of(logs: Seq<OrchestrationJobLog>, id: Option<Seq<char>>) -> Seq<OrchestrationJobLog>
    decreases logs.len(),
{
    if logs.len() == 0 {
        Seq::empty()
    } else {
        let rest = logs_of(logs.drop_last(), id);
        match id {
            Some(k) => if logs.last().job_id@ == k {
                rest.push(logs.last())
            } else {
                rest
            },
            None => rest.push(logs.last()),
        }
    }
}

/// Ids of the jobs due at the minute `now`: enabled, with a cron
/// expression that matches it, in order.
pub open spec fn due_job_ids<P>(jobs: Seq<OrchestrationJob<P>>, now: CronTime) -> Seq<Seq<char>>
    decreases jobs.len(),
{
    if jobs.len() == 0 {
        Seq::empty()
    } else {
        let rest = due_job_ids(jobs.drop_last(), now);
        if jobs.last().enabled && cron_matches(jobs.last().cron_expression@, now) {
            rest.push(jobs.last().job_id@)
        } else {
            rest
        }
    }
}

/// The logs after one more run is recorded: the newest `LOG_RETENTION`.
pub open spec fn logs_after(logs: Seq<OrchestrationJobLog>, log: OrchestrationJobLog) -> Seq<OrchestrationJobLog> {
    let all = logs.push(log);
    if all.len() > LOG_RETENTION {
        all.skip(all.len() - LOG_RETENTION)
    } else {
        all
    }
}

/// The error for an unknown job id.
pub open spec fn job_not_found_text(id: Seq<char>) -> Seq<char> {
    "Job not found: "@ + id
}

fn job_not_found(id: &str) -> (e: String)
    ensures
        e@ == job_not_found_text(id@),
{
    let mut out = chars_of("Job not found: ");
    append_str(&mut out, id);
    string_of(out.as_slice())
}

fn copy_log(l: &OrchestrationJobLog) -> (r: OrchestrationJobLog)
    ensures
        r == *l,
{
    OrchestrationJobLog {
        job_id: l.job_id.clone(),
        run_id: l.run_id.clone(),
        ran_at: l.ran_at.clone(),
        result: l.result.clone(),
        decision: l.decision,
        duration_ms: l.duration_ms,
    }
}

fn find_job<P>(jobs: &Vec<OrchestrationJob<P>>, id: &str) -> (r: Option<usize>)
    ensures
        r is None ==> first_job(jobs@, id@) is None,
        r matches Some(i) ==> first_job(jobs@, id@) == Some(i as int) && i < jobs@.len(),
{
    let mut i: usize = 0;
    while i < jobs.len()
        invariant
            i <= jobs@.len(),
            first_job(jobs@.take(i as int), id@) is None,
        decreases jobs@.len() - i,
    {
        assert(jobs@.take(i + 1).drop_last() =~= jobs@.take(i as int));
        if str_eq(jobs[i].job_id.as_str(), id) {
            proof {
                lemma_first_job_prefix(jobs@, id@, i as int + 1);
            }
            return Some(i);
        }
        i += 1;
    }
    assert(jobs@.take(jobs@.len() as int) =~= jobs@);
    None
}

/// A job found in a prefix is the first job of the whole list.
proof fn lemma_first_job_prefix<P>(jobs: Seq<OrchestrationJob<P>>, id: Seq<char>, n: int)
    requires
        0 <= n <= jobs.len(),
        first_job(jobs.take(n), id) is Some,
    ensures
        first_job(jobs, id) == first_job(jobs.take(n), id),
    decreases jobs.len() - n,
{
    if n < jobs.len() {
        assert(jobs.take(n + 1).drop_last() =~= jobs.take(n));
        lemma_first_job_prefix(jobs, id, n + 1);
    } else {
        assert(jobs.take(n) =~= jobs);
    }
}

impl<P> JobBook<P> {
    /// A book over the given jobs and logs.
    pub fn new(jobs: Vec<OrchestrationJob<P>>, logs: Vec<OrchestrationJobLog>) -> (b: Self)
        ensures
            b.jobs == jobs,
            b.logs == logs,
    {
        JobBook { jobs, logs }
    }

    /// Adds a job at the end and returns its id.
    pub fn create_job(&mut self, job: OrchestrationJob<P>) -> (id: String)
        ensures
            id@ == job.job_id@,
            final(self).jobs@ == old(self).jobs@.push(job),
            final(self).logs == old(self).logs,
    {
        let id = job.job_id.clone();
        self.jobs.push(job);
        id
    }

    /// Replaces the first job with this id; an error if there is none.
    pub fn update_job(&mut self, job_id: &str, update: OrchestrationJob<P>) -> (r: Result<(), String>)
        ensures
            final(self).logs == old(self).logs,
            match first_job(old(self).jobs@, job_id@) {
                Some(i) => r is Ok && final(self).jobs@ == old(self).jobs@.update(i, update),
                None => r is Err && r->Err_0@ == job_not_found_text(job_id@) && final(self).jobs@ == old(self).jobs@,
            },
    {
        match find_job(&self.jobs, job_id) {
            Some(i) => {
                self.jobs.set(i, update);
                Ok(())
            },
            None => Err(job_not_found(job_id)),
        }
    }

    /// Removes every job with this id; an error if there is none.
    pub fn delete_job(&mut self, job_id: &str) -> (r: Result<(), String>)
        ensures
            final(self).logs == old(self).logs,
            first_job(old(self).jobs@, job_id@) is Some ==> r is Ok && final(self).jobs@ == jobs_without(old(self).jobs@, job_id@),
            first_job(old(self).jobs@, job_id@) is None ==> r is Err && r->Err_0@ == job_not_found_text(job_id@) && final(self).jobs@ == old(self).jobs@,
    {
        let ghost old_jobs = self.jobs@;
        let mut kept: Vec<OrchestrationJob<P>> = Vec::new();
        let mut removed = false;
        let mut rest: Vec<OrchestrationJob<P>> = Vec::new();
        std::mem::swap(&mut rest, &mut self.jobs);
        let ghost mut i: int = 0;
        while rest.len() > 0
            invariant
                0 <= i <= old_jobs.len(),
                rest@ == old_jobs.skip(i),
                kept@ == jobs_without(old_jobs.take(i), job_id@),
                removed == first_job(old_jobs.take(i), job_id@) is Some,
            decreases rest@.len(),
        {
            let job = rest.remove(0);
            proof {
                assert(old_jobs.take(i + 1).drop_last() =~= old_jobs.take(i));
                assert(old_jobs.skip(i)[0] == old_jobs[i]);
                assert(old_jobs.skip(i).skip(1) =~= old_jobs.skip(i + 1));
            }
            if str_eq(job.job_id.as_str(), job_id) {
                removed = true;
            } else {
                kept.push(job);
            }
            proof {
                i = i + 1;
            }
        }
        proof {
            assert(old_jobs.take(i) =~= old_jobs);
        }
        self.jobs = kept;
        if removed {
            Ok(())
        } else {
            proof {
                lemma_without_absent(old_jobs, job_id@);
            }
            Err(job_not_found(job_id))
        }
    }

    /// Enables or disables the first job with this id and stamps it with the
    /// current time; an error if there is none.
    pub fn set_enabled(&mut self, job_id: &str, enabled: bool) -> (r: Result<(), String>)
        ensures
            final(self).logs == old(self).logs,
            final(self).jobs@.len() == old(self).jobs@.len(),
            match first_job(old(self).jobs@, job_id@) {
                Some(i) => {
                    &&& r is Ok
                    &&& final(self).jobs@[i].enabled == enabled
                    &&& final(self).jobs@[i].job_id == old(self).jobs@[i].job_id
                    &&& final(self).jobs@[i].name == old(self).jobs@[i].name
                    &&& final(self).jobs@[i].cron_expression == old(self).jobs@[i].cron_expression
                    &&& final(self).jobs@[i].mode == old(self).jobs@[i].mode
                    &&& final(self).jobs@[i].goal_template == old(self).jobs@[i].goal_template
                    &&& final(self).jobs@[i].significance_policy == old(self).jobs@[i].significance_policy
                    &&& final(self).jobs@[i].created_at == old(self).jobs@[i].created_at
                    &&& forall|k: int| 0 <= k < old(self).jobs@.len() && k != i ==> final(self).jobs@[k] == old(self).jobs@[k]
                },
                None => r is Err && r->Err_0@ == job_not_found_text(job_id@) && final(self).jobs@ == old(self).jobs@,
            },
    {
        match find_job(&self.jobs, job_id) {
            Some(i) => {
                let mut rest: Vec<OrchestrationJob<P>> = Vec::new();
                std::mem::swap(&mut rest, &mut self.jobs);
                let ghost before = rest@;
                let mut job = rest.remove(i);
                job.enabled = enabled;
                job.updated_at = now_rfc3339();
                rest.insert(i, job);
                proof {
                    assert forall|k: int| 0 <= k < before.len() && k != i implies rest@[k] == before[k] by {
                        if k < i {
                        } else {
                        }
                    }
                }
                self.jobs = rest;
                Ok(())
            },
            None => Err(job_not_found(job_id)),
        }
    }

    /// The logs of one job, or all logs, oldest first.
    pub fn get_logs(&self, job_id: Option<&str>) -> (r: Vec<OrchestrationJobLog>)
        ensures
            r@ == logs_of(self.logs@, match job_id {
                Some(k) => Some(k@),
                None => None,
            }),
    {
        let ghost key = match job_id {
            Some(k) => Some(k@),
            None => None::<Seq<char>>,
        };
        let mut r: Vec<OrchestrationJobLog> = Vec::new();
        let mut i: usize = 0;
        while i < self.logs.len()
            invariant
                i <= self.logs@.len(),
                key == (match job_id {
                    Some(k) => Some(k@),
                    None => None::<Seq<char>>,
                }),
                r@ == logs_of(self.logs@.take(i as int), key),
            decreases self.logs@.len() - i,
        {
            assert(self.logs@.take(i + 1).drop_last() =~= self.logs@.take(i as int));
            let keep = match job_id {
                Some(k) => str_eq(self.logs[i].job_id.as_str(), k),
                None => true,
            };
            if keep {
                r.push(copy_log(&self.logs[i]));
            }
            i += 1;
        }
        assert(self.logs@.take(self.logs@.len() as int) =~= self.logs@);
        r
    }

    /// Records a run, keeping only the newest `LOG_RETENTION` logs.
    pub fn record_log(&mut self, log: OrchestrationJobLog)
        ensures
            final(self).logs@ == logs_after(old(self).logs@, log),
            final(self).logs@.len() <= LOG_RETENTION,
            final(self).jobs == old(self).jobs,
    {
        let ghost all = self.logs@.push(log);
        self.logs.push(log);
        if self.logs.len() > LOG_RETENTION {
            let drain = self.logs.len() - LOG_RETENTION;
            let mut k: usize = 0;
            while k < drain
                invariant
                    k <= drain,
                    drain == all.len() - LOG_RETENTION,
                    self.logs@ == all.skip(k as int),
                    self.jobs == old(self).jobs,
                decreases drain - k,
            {
                self.logs.remove(0);
                assert(all.skip(k as int).skip(1) =~= all.skip(k + 1));
                k += 1;
            }
        }
    }

    /// The ids of the jobs due at the minute `now` (see `due_job_ids`).
    pub fn check_due_jobs(&self, now: CronTime) -> (ids: Vec<String>)
        ensures
            ids@.map_values(|s: String| s@) == due_job_ids(self.jobs@, now),
    {
        let mut ids: Vec<String> = Vec::new();
        let mut i: usize = 0;
        while i < self.jobs.len()
            invariant
                i <= self.jobs@.len(),
                ids@.map_values(|s: String| s@) == due_job_ids(self.jobs@.take(i as int), now),
            decreases self.jobs@.len() - i,
        {
            assert(self.jobs@.take(i + 1).drop_last() =~= self.jobs@.take(i as int));
            if self.jobs[i].enabled && cron_due(self.jobs[i].cron_expression.as_str(), now) {
                ids.push(self.jobs[i].job_id.clone());
                assert(ids@.map_values(|s: String| s@) =~= due_job_ids(self.jobs@.take(i + 1), now));
            }
            i += 1;
        }
        assert(self.jobs@.take(self.jobs@.len() as int) =~= self.jobs@);
        ids
    }
}

/// With no job of this id, removing it keeps every job.
proof fn lemma_without_absent<P>(jobs: Seq<OrchestrationJob<P>>, id: Seq<char>)
    requires
        first_job(jobs, id) is None,
    ensures
        jobs_without(jobs, id) == jobs,
    decreases jobs.len(),
{
    if jobs.len() > 0 {
        lemma_without_absent(jobs.drop_last(), id);
        assert(jobs.drop_last().push(jobs.last()) =~= jobs);
    }
}

/// Words that always count towards a result's significance.
pub open spec fn urgent_words() -> Seq<Seq<char>> {
    seq!["urgent"@, "error"@, "failure"@, "critical"@, "alert"@, "warning"@]
}

/// How many of the policy's keywords, and how many of the built-in urgent
/// words, occur in the result, all compared in lower case. The score and
/// the decision built from these counts use floating point and are not here.
pub fn significance_hits(result: &str, keywords: &Vec<String>) -> (r: (u64, u64))
    ensures
        r.0 == count_contained(lowercase(result@), keywords@.map_values(|k: String| lowercase(k@))),
        r.1 == count_contained(lowercase(result@), urgent_words()),
{
    let lower = to_lowercase(result);
    let lc = chars_of(lower.as_str());
    let ghost pats = keywords@.map_values(|k: String| lowercase(k@));
    let mut n: u64 = 0;
    let mut i: usize = 0;
    while i < keywords.len()
        invariant
            i <= keywords@.len(),
            lc@ == lowercase(result@),
            pats == keywords@.map_values(|k: String| lowercase(k@)),
            n <= i,
            n == count_contained(lc@, pats.take(i as int)),
        decreases keywords@.len() - i,
    {
        assert(pats.take(i + 1).drop_last() =~= pats.take(i as int));
        let kl = to_lowercase(keywords[i].as_str());
        let kc = chars_of(kl.as_str());
        if contains(lc.as_slice(), kc.as_slice()) {
            n = n + 1;
        }
        i += 1;
    }
    assert(pats.take(keywords@.len() as int) =~= pats);
    let urgent: [&str; 6] = ["urgent", "error", "failure", "critical", "alert", "warning"];
    proof {
        reveal_strlit("urgent");
        reveal_strlit("error");
        reveal_strlit("failure");
        reveal_strlit("critical");
        reveal_strlit("alert");
        reveal_strlit("warning");
        assert(strs_view(urgent@) =~= urgent_words());
    }
    let u = count_any_of(lc.as_slice(), &urgent);
    (n, u as u64)
}


/// After a delete, no job with that id is left, and every job with another
/// id is still there.
pub proof fn lemma_deleted_job_is_gone<P>(jobs: Seq<OrchestrationJob<P>>, id: Seq<char>)
    ensures
        first_job(jobs_without(jobs, id), id) is None,
        forall|i: int| 0 <= i < jobs.len() && jobs[i].job_id@ != id ==> #[trigger] jobs_without(jobs, id).contains(jobs[i]),
    decreases jobs.len(),
{
    if jobs.len() > 0 {
        let rest = jobs.drop_last();
        lemma_deleted_job_is_gone(rest, id);
        if jobs.last().job_id@ != id {
            lemma_first_job_push_none(jobs_without(rest, id), jobs.last(), id);
            assert(jobs_without(jobs, id).last() == jobs.last());
        }
        assert forall|i: int| 0 <= i < jobs.len() && jobs[i].job_id@ != id implies #[trigger] jobs_without(jobs, id).contains(jobs[i]) by {
            if i < jobs.len() - 1 {
                assert(rest[i] == jobs[i]);
                assert(jobs_without(rest, id).contains(rest[i]));
                let k = choose|k: int| 0 <= k < jobs_without(rest, id).len() && jobs_without(rest, id)[k] == rest[i];
                if jobs.last().job_id@ != id {
                    assert(jobs_without(jobs, id)[k] == rest[i]);
                }
            } else {
                assert(jobs_without(jobs, id)[jobs_without(jobs, id).len() - 1] == jobs[i]);
            }
        }
    }
}

proof fn lemma_first_job_push_none<P>(jobs: Seq<OrchestrationJob<P>>, j: OrchestrationJob<P>, id: Seq<char>)
    requires
        first_job(jobs, id) is None,
        j.job_id@ != id,
    ensures
        first_job(jobs.push(j), id) is None,
{
    assert(jobs.push(j).drop_last() =~= jobs);
}

/// Recording a run keeps at most `LOG_RETENTION` logs and always keeps the
/// run just recorded, as the newest.
pub proof fn lemma_log_retention(logs: Seq<OrchestrationJobLog>, log: OrchestrationJobLog)
    ensures
        logs_after(logs, log).len() <= LOG_RETENTION,
        logs_after(logs, log).len() > 0,
        logs_after(logs, log).last() == log,
{
}

} // verus!
