use abigail::cron::{cron_due, CronTime};
use abigail::orchestration::{
    significance_hits, JobBook, JobMode, OrchestrationJob, OrchestrationJobLog, SignificanceDecision, LOG_RETENTION,
};

fn job(id: &str, enabled: bool) -> OrchestrationJob<u8> {
    OrchestrationJob {
        job_id: id.into(),
        name: "Test Job".into(),
        cron_expression: "0 * * * *".into(),
        mode: JobMode::IdCheck,
        goal_template: None,
        enabled,
        significance_policy: 5,
        created_at: "2026-01-01T00:00:00Z".into(),
        updated_at: "2026-01-01T00:00:00Z".into(),
    }
}

fn log(job_id: &str, run: usize) -> OrchestrationJobLog {
    OrchestrationJobLog {
        job_id: job_id.into(),
        run_id: format!("run-{}", run),
        ran_at: "2026-01-01T00:00:00Z".into(),
        result: "ok".into(),
        decision: SignificanceDecision::SilentLog,
        duration_ms: 3,
    }
}

#[test]
fn test_scheduler_crud() {
    let mut book: JobBook<u8> = JobBook::new(vec![], vec![]);
    assert_eq!(book.create_job(job("job-1", true)), "job-1");
    assert_eq!(book.jobs.len(), 1);
    assert_eq!(book.jobs[0].name, "Test Job");
    book.set_enabled("job-1", false).unwrap();
    assert!(!book.jobs[0].enabled);
    book.delete_job("job-1").unwrap();
    assert!(book.jobs.is_empty());
}

#[test]
fn unknown_jobs_are_errors() {
    let mut book: JobBook<u8> = JobBook::new(vec![job("a", true)], vec![]);
    assert_eq!(book.delete_job("b"), Err("Job not found: b".to_string()));
    assert_eq!(book.set_enabled("b", true), Err("Job not found: b".to_string()));
    assert_eq!(book.update_job("b", job("b", true)), Err("Job not found: b".to_string()));
    assert_eq!(book.jobs.len(), 1);
}

#[test]
fn update_replaces_first_match() {
    let mut book: JobBook<u8> = JobBook::new(vec![job("a", true)], vec![]);
    let mut j = job("a", false);
    j.name = "Renamed".into();
    book.update_job("a", j).unwrap();
    assert_eq!(book.jobs[0].name, "Renamed");
    assert!(!book.jobs[0].enabled);
}

fn at(minute: u8, hour: u8, day: u8, month: u8, weekday: u8) -> CronTime {
    CronTime { minute, hour, day, month, weekday }
}

#[test]
fn due_jobs_are_the_enabled_ones_whose_cron_matches() {
    let mut d = job("d", true);
    d.cron_expression = "*/15 9-17 * * 1-5".into();
    let book: JobBook<u8> = JobBook::new(vec![job("a", true), job("b", false), job("c", true), d], vec![]);
    // Monday 2026-03-02 09:00 UTC.
    assert_eq!(book.check_due_jobs(at(0, 9, 2, 3, 1)), vec!["a".to_string(), "c".to_string(), "d".to_string()]);
    assert_eq!(book.check_due_jobs(at(30, 10, 2, 3, 1)), vec!["d".to_string()]);
    assert_eq!(book.check_due_jobs(at(7, 10, 2, 3, 1)), Vec::<String>::new());
    // Sunday: the weekday range excludes it.
    assert_eq!(book.check_due_jobs(at(15, 9, 1, 3, 0)), Vec::<String>::new());
}

#[test]
fn cron_fields_lists_steps_and_days() {
    assert!(cron_due("0 */6 * * *", at(0, 12, 5, 6, 3)));
    assert!(!cron_due("0 */6 * * *", at(0, 13, 5, 6, 3)));
    assert!(cron_due("5,10,20-22 * * * *", at(21, 0, 1, 1, 4)));
    assert!(!cron_due("5,10,20-22 * * * *", at(23, 0, 1, 1, 4)));
    assert!(cron_due("0 0 * * 7", at(0, 0, 1, 3, 0)));
    // Both day fields restricted: either matches.
    assert!(cron_due("0 0 1 * 1", at(0, 0, 1, 3, 3)));
    assert!(cron_due("0 0 1 * 1", at(0, 0, 9, 3, 1)));
    assert!(!cron_due("0 0 1 * 1", at(0, 0, 9, 3, 3)));
    // Malformed expressions are never due.
    assert!(!cron_due("0 * * *", at(0, 0, 1, 1, 1)));
    assert!(!cron_due("x * * * *", at(0, 0, 1, 1, 1)));
    assert!(!cron_due("*/0 * * * *", at(0, 0, 1, 1, 1)));
    assert!(cron_due("  0   12 * * *  ", at(0, 12, 1, 1, 1)));
}

#[test]
fn logs_filter_by_job_and_keep_the_newest() {
    let mut book: JobBook<u8> = JobBook::new(vec![], vec![]);
    for i in 0..(LOG_RETENTION + 5) {
        book.record_log(log(if i % 2 == 0 { "even" } else { "odd" }, i));
    }
    assert_eq!(book.logs.len(), LOG_RETENTION);
    assert_eq!(book.logs[0].run_id, "run-5");
    assert_eq!(book.logs.last().unwrap().run_id, format!("run-{}", LOG_RETENTION + 4));
    assert_eq!(book.get_logs(None).len(), LOG_RETENTION);
    assert!(book.get_logs(Some("even")).iter().all(|l| l.job_id == "even"));
}

#[test]
fn test_significance_scoring_low() {
    assert_eq!(significance_hits("Nothing interesting happened today", &vec!["important".into()]), (0, 0));
}

#[test]
fn test_significance_scoring_high() {
    let (kw, urgent) = significance_hits("URGENT ALERT: critical error detected, this is important", &vec!["important".into()]);
    assert_eq!((kw, urgent), (1, 4));
}

#[test]
fn test_significance_scoring_medium() {
    assert_eq!(significance_hits("New deploy available with a warning", &vec!["deploy".into()]), (1, 1));
}
