use abigail::builtin_skills::{
    execute_queue_tool, JobRequest, QueueOperations, QueueOutput,
    execute_hive_tool, HiveAgentInfo, HiveOperations, HiveOutput,
    execute_backup_tool, BackupImportResult, BackupInfo, BackupOperations, BackupOutput, BackupPreview,
    backup_command, backup_manifest, backup_tool_specs, hive_command, hive_manifest, hive_tool_specs, parse_priority,
    priority_text, queue_command, queue_manifest, queue_tool_specs, BackupCommand, HiveCommand, JobPriority, QueueCommand,
};
use abigail::channel::{skill_event_headers, SkillEvent, TriggerPriority};
use abigail::manifest::SkillId;
use abigail::skill::SkillError;
use abigail::tool_args::{ArgValue, ToolArgs};
use abigail::watcher::events_for_change;

fn args(pairs: &[(&str, &str)]) -> ToolArgs {
    ToolArgs { entries: pairs.iter().map(|(k, v)| (k.to_string(), ArgValue::Str(v.to_string()))).collect() }
}

#[test]
fn hive_management_skill_unknown_tool_errors() {
    match hive_command("not_a_real_tool", &args(&[])) {
        Err(SkillError::ToolFailed(message)) => assert!(message.contains("Unknown tool")),
        other => panic!("unexpected {:?}", other),
    }
}

#[test]
fn hive_management_skill_secret_tools_work() {
    match hive_command("store_secret", &args(&[("key", "OPENAI_API_KEY"), ("value", "sk-test-1")])).unwrap() {
        HiveCommand::StoreSecret { key, value } => {
            assert_eq!(key, "OPENAI_API_KEY");
            assert_eq!(value, "sk-test-1");
        }
        other => panic!("unexpected {:?}", other),
    }
    assert!(matches!(hive_command("list_secrets", &args(&[])).unwrap(), HiveCommand::ListSecrets));
}

#[test]
fn hive_management_skill_entity_and_config_tools_work() {
    assert!(matches!(hive_command("list_entities", &args(&[])).unwrap(), HiveCommand::ListEntities));
    match hive_command("create_entity", &args(&[("name", "Nova")])).unwrap() {
        HiveCommand::CreateEntity { name } => assert_eq!(name, "Nova"),
        other => panic!("unexpected {:?}", other),
    }
    assert!(hive_command("create_entity", &args(&[])).is_err());
    assert_eq!(hive_manifest().id.0, "builtin.hive_management");
    assert!(!hive_tool_specs().is_empty());
}

#[test]
fn queue_commands() {
    match queue_command("submit_job", &args(&[("goal", "g"), ("topic", "t"), ("priority", "HIGH")])).unwrap() {
        QueueCommand::Submit(j) => {
            assert_eq!(j.goal, "g");
            assert_eq!(j.topic, "t");
            assert_eq!(j.priority, JobPriority::High);
        }
        other => panic!("unexpected {:?}", other),
    }
    assert!(queue_command("submit_job", &args(&[("topic", "t")])).is_err());
    match queue_command("list_jobs", &args(&[])).unwrap() {
        QueueCommand::List { status, limit } => {
            assert!(status.is_none());
            assert_eq!(limit, 50);
        }
        other => panic!("unexpected {:?}", other),
    }
    assert!(queue_command("nope", &args(&[])).is_err());
    assert_eq!(queue_manifest().id.0, "builtin.queue_management");
    assert!(!queue_tool_specs().is_empty());
}

#[test]
fn priorities() {
    assert_eq!(parse_priority(Some("critical")), JobPriority::Critical);
    assert_eq!(parse_priority(Some("Low")), JobPriority::Low);
    assert_eq!(parse_priority(Some("urgent")), JobPriority::Normal);
    assert_eq!(parse_priority(None), JobPriority::Normal);
    assert_eq!(priority_text(JobPriority::High), "high");
}

#[test]
fn backup_commands() {
    assert!(matches!(backup_command("list_backups", &args(&[])).unwrap(), BackupCommand::List));
    match backup_command("import_backup", &args(&[("backup_path", "/b")])).unwrap() {
        BackupCommand::Import { backup_path } => assert_eq!(backup_path, "/b"),
        other => panic!("unexpected {:?}", other),
    }
    assert!(backup_command("preview_backup", &args(&[])).is_err());
    assert_eq!(backup_manifest().id.0, "builtin.backup_management");
    assert_eq!(backup_tool_specs().len(), 3);
}

#[test]
fn skill_event_headers_name_skill_and_trigger() {
    let e = SkillEvent {
        skill_id: SkillId("s".into()),
        trigger: "email_received".into(),
        payload: serde_json::from_str("{}").unwrap(),
        timestamp: "2026-01-01T00:00:00Z".into(),
        priority: TriggerPriority::Normal,
    };
    let h = skill_event_headers(&e);
    assert_eq!(h, vec![("skill_id".to_string(), "s".to_string()), ("trigger".to_string(), "email_received".to_string())]);
}

#[test]
fn watcher_reports_skill_files_only() {
    let paths = vec![
        ("/s/skill.toml".to_string(), Some("skill.toml".to_string())),
        ("/s/readme.md".to_string(), Some("readme.md".to_string())),
        ("/s/api.json".to_string(), Some("api.json".to_string())),
    ];
    let events = events_for_change(abigail::watcher::ChangeKind::Modify, &paths);
    assert_eq!(events.len(), 2);
    assert!(matches!(&events[0], abigail::watcher::SkillFileEvent::Changed(p) if p == "/s/skill.toml"));
    let removed = events_for_change(abigail::watcher::ChangeKind::Remove, &paths);
    assert!(matches!(&removed[1], abigail::watcher::SkillFileEvent::Removed(p) if p == "/s/api.json"));
    assert!(events_for_change(abigail::watcher::ChangeKind::Other, &paths).is_empty());
}

struct FakeBackups;

impl BackupOperations for FakeBackups {
    fn list_backups(&self) -> Result<Vec<BackupInfo>, String> {
        Ok(vec![BackupInfo { path: "/b/1".into(), timestamp: "t".into(), has_memory_db: true }])
    }

    fn preview_backup(&self, backup_path: &str) -> Result<BackupPreview, String> {
        if backup_path == "/b/1" {
            Ok(BackupPreview {
                db_path: backup_path.to_string(),
                turn_count: 3,
                memory_count: 2,
                session_count: 1,
                earliest: None,
                latest: None,
            })
        } else {
            Err(format!("no backup at {}", backup_path))
        }
    }

    fn import_backup(&self, _backup_path: &str) -> Result<BackupImportResult, String> {
        Ok(BackupImportResult { turns_imported: 3, turns_skipped: 0, memories_imported: 2, memories_skipped: 0 })
    }
}

#[test]
fn backup_tool_runs_the_decoded_operation() {
    match execute_backup_tool(&FakeBackups, "list_backups", &args(&[])) {
        Ok(BackupOutput::Listed(v)) => assert_eq!(v[0].path, "/b/1"),
        other => panic!("unexpected {:?}", other),
    }
    match execute_backup_tool(&FakeBackups, "preview_backup", &args(&[("backup_path", "/b/1")])) {
        Ok(BackupOutput::Previewed(p)) => {
            assert_eq!(p.db_path, "/b/1");
            assert_eq!(p.turn_count, 3);
        }
        other => panic!("unexpected {:?}", other),
    }
    match execute_backup_tool(&FakeBackups, "import_backup", &args(&[("backup_path", "/b/1")])) {
        Ok(BackupOutput::Imported(x)) => assert_eq!(x.memories_imported, 2),
        other => panic!("unexpected {:?}", other),
    }
}

#[test]
fn backup_tool_errors_come_from_decoding_or_the_store() {
    match execute_backup_tool(&FakeBackups, "preview_backup", &args(&[("backup_path", "/nowhere")])) {
        Err(SkillError::ToolFailed(m)) => assert_eq!(m, "no backup at /nowhere"),
        other => panic!("unexpected {:?}", other),
    }
    match execute_backup_tool(&FakeBackups, "import_backup", &args(&[])) {
        Err(SkillError::ToolFailed(m)) => assert!(m.contains("backup_path")),
        other => panic!("unexpected {:?}", other),
    }
    match execute_backup_tool(&FakeBackups, "drop_backups", &args(&[])) {
        Err(SkillError::ToolFailed(m)) => assert!(m.contains("Unknown tool")),
        other => panic!("unexpected {:?}", other),
    }
}

struct FakeHive {
    set: std::cell::RefCell<Vec<(String, String)>>,
}

impl HiveOperations for FakeHive {
    fn list_agents(&self) -> Result<Vec<HiveAgentInfo>, String> {
        Ok(vec![HiveAgentInfo { id: "a1".into(), name: "Ada".into() }])
    }

    fn load_agent(&self, agent_id: &str) -> Result<(), String> {
        if agent_id == "a1" {
            Ok(())
        } else {
            Err(format!("no entity {}", agent_id))
        }
    }

    fn create_agent(&self, name: &str) -> Result<String, String> {
        Ok(format!("id-{}", name))
    }

    fn get_active_agent_id(&self) -> Result<Option<String>, String> {
        Ok(None)
    }

    fn get_config_value(&self, key: &str) -> Result<ArgValue, String> {
        Ok(ArgValue::Str(format!("value of {}", key)))
    }

    fn set_config_value(&self, key: &str, value: &ArgValue) -> Result<(), String> {
        let text = match value {
            ArgValue::Str(s) => s.clone(),
            ArgValue::Other { json, .. } => json.clone(),
            ArgValue::Null => "null".to_string(),
        };
        self.set.borrow_mut().push((key.to_string(), text));
        Ok(())
    }

    fn set_skill_secret(&self, key: &str, value: &str) -> Result<(), String> {
        self.set.borrow_mut().push((key.to_string(), value.to_string()));
        Ok(())
    }

    fn get_skill_secret_names(&self) -> Result<Vec<String>, String> {
        Ok(self.set.borrow().iter().map(|(k, _)| k.clone()).collect())
    }
}

#[test]
fn hive_tool_runs_the_decoded_operation() {
    let hive = FakeHive { set: std::cell::RefCell::new(Vec::new()) };
    match execute_hive_tool(&hive, "list_entities", &args(&[])) {
        Ok(HiveOutput::Agents(v)) => assert_eq!(v[0].name, "Ada"),
        other => panic!("unexpected {:?}", other),
    }
    match execute_hive_tool(&hive, "create_entity", &args(&[("name", "Bo")])) {
        Ok(HiveOutput::Created(id)) => assert_eq!(id, "id-Bo"),
        other => panic!("unexpected {:?}", other),
    }
    assert!(matches!(execute_hive_tool(&hive, "switch_entity", &args(&[("id", "a1")])), Ok(HiveOutput::Done)));
    match execute_hive_tool(&hive, "get_config", &args(&[("key", "theme")])) {
        Ok(HiveOutput::Config(ArgValue::Str(v))) => assert_eq!(v, "value of theme"),
        other => panic!("unexpected {:?}", other),
    }
    let set_args = ToolArgs {
        entries: vec![
            ("key".to_string(), ArgValue::Str("volume".to_string())),
            ("value".to_string(), ArgValue::Other { json: "7".to_string(), uint: Some(7), strings: None }),
        ],
    };
    assert!(matches!(execute_hive_tool(&hive, "set_config", &set_args), Ok(HiveOutput::Done)));
    assert!(matches!(
        execute_hive_tool(&hive, "store_secret", &args(&[("key", "gh_token"), ("value", "s3")])),
        Ok(HiveOutput::Done)
    ));
    assert_eq!(hive.set.borrow().clone(), vec![
        ("volume".to_string(), "7".to_string()),
        ("gh_token".to_string(), "s3".to_string()),
    ]);
    match execute_hive_tool(&hive, "list_secrets", &args(&[])) {
        Ok(HiveOutput::SecretNames(v)) => assert_eq!(v, vec!["volume".to_string(), "gh_token".to_string()]),
        other => panic!("unexpected {:?}", other),
    }
}

#[test]
fn hive_tool_errors_come_from_decoding_or_the_hive() {
    let hive = FakeHive { set: std::cell::RefCell::new(Vec::new()) };
    match execute_hive_tool(&hive, "switch_entity", &args(&[("id", "zz")])) {
        Err(SkillError::ToolFailed(m)) => assert_eq!(m, "no entity zz"),
        other => panic!("unexpected {:?}", other),
    }
    match execute_hive_tool(&hive, "set_config", &args(&[("key", "k")])) {
        Err(SkillError::ToolFailed(m)) => assert_eq!(m, "Missing 'value'"),
        other => panic!("unexpected {:?}", other),
    }
    assert!(hive.set.borrow().is_empty());
}

#[test]
fn trigger_priority_ranks_in_order() {
    assert_eq!(TriggerPriority::Low.rank(), 0);
    assert_eq!(TriggerPriority::Normal.rank(), 1);
    assert_eq!(TriggerPriority::High.rank(), 2);
    assert_eq!(TriggerPriority::Critical.rank(), 3);
}

struct FakeQueue {
    submitted: std::cell::RefCell<Vec<(String, String, bool)>>,
}

impl QueueOperations for FakeQueue {
    type Job = String;

    fn submit_job(&self, job: JobRequest, input_data: Option<&ArgValue>) -> Result<String, String> {
        self.submitted.borrow_mut().push((job.goal.clone(), job.topic.clone(), input_data.is_some()));
        Ok("job-1".to_string())
    }

    fn get_job(&self, job_id: &str) -> Result<Option<String>, String> {
        Ok(if job_id == "job-1" { Some("record of job-1".to_string()) } else { None })
    }

    fn list_jobs(&self, status: Option<&str>, limit: usize) -> Result<Vec<String>, String> {
        Ok(vec![format!("{:?}/{}", status, limit)])
    }

    fn cancel_job(&self, job_id: &str) -> Result<(), String> {
        if job_id == "job-1" { Ok(()) } else { Err("cannot cancel".to_string()) }
    }

    fn topic_results(&self, topic: &str, limit: usize) -> Result<Vec<String>, String> {
        Ok(vec![format!("{}:{}", topic, limit)])
    }

    fn topic_all_terminal(&self, topic: &str) -> Result<bool, String> {
        if topic == "t" { Ok(true) } else { Err("unknown topic".to_string()) }
    }
}

#[test]
fn queue_tool_runs_the_decoded_operation() {
    let q = FakeQueue { submitted: std::cell::RefCell::new(Vec::new()) };
    match execute_queue_tool(&q, "submit_job", &args(&[("goal", "research"), ("topic", "t")])) {
        Ok(QueueOutput::Submitted { job_id, topic }) => {
            assert_eq!(job_id, "job-1");
            assert_eq!(topic, "t");
        }
        other => panic!("unexpected {:?}", other),
    }
    assert_eq!(q.submitted.borrow().clone(), vec![("research".to_string(), "t".to_string(), false)]);
    match execute_queue_tool(&q, "check_job_status", &args(&[("job_id", "job-1")])) {
        Ok(QueueOutput::Status(r)) => assert_eq!(r, "record of job-1"),
        other => panic!("unexpected {:?}", other),
    }
    match execute_queue_tool(&q, "check_job_status", &args(&[("job_id", "job-9")])) {
        Err(SkillError::ToolFailed(m)) => assert_eq!(m, "Job 'job-9' not found"),
        other => panic!("unexpected {:?}", other),
    }
    match execute_queue_tool(&q, "list_jobs", &args(&[("status", "running")])) {
        Ok(QueueOutput::Jobs(v)) => assert_eq!(v, vec!["Some(\"running\")/50".to_string()]),
        other => panic!("unexpected {:?}", other),
    }
    match execute_queue_tool(&q, "cancel_job", &args(&[("job_id", "job-1")])) {
        Ok(QueueOutput::Cancelled { job_id }) => assert_eq!(job_id, "job-1"),
        other => panic!("unexpected {:?}", other),
    }
    match execute_queue_tool(&q, "list_topic_results", &args(&[("topic", "t")])) {
        Ok(QueueOutput::TopicResults { topic, all_terminal, jobs }) => {
            assert_eq!(topic, "t");
            assert!(all_terminal);
            assert_eq!(jobs, vec!["t:50".to_string()]);
        }
        other => panic!("unexpected {:?}", other),
    }
    match execute_queue_tool(&q, "list_topic_results", &args(&[("topic", "u")])) {
        Err(SkillError::ToolFailed(m)) => assert_eq!(m, "unknown topic"),
        other => panic!("unexpected {:?}", other),
    }
    match execute_queue_tool(&q, "submit_job", &args(&[("topic", "t")])) {
        Err(SkillError::ToolFailed(m)) => assert_eq!(m, "Missing 'goal'"),
        other => panic!("unexpected {:?}", other),
    }
}

#[test]
fn hive_tool_specs_carry_their_descriptions_and_schemas() {
    let specs = hive_tool_specs();
    assert_eq!(specs.len(), 7);
    assert_eq!(specs[1].name, "create_entity");
    assert_eq!(specs[1].description, "Birth a new Entity with the given name.");
    assert_eq!(
        specs[1].parameters_json,
        "{\"type\":\"object\",\"properties\":{\"name\":{\"type\":\"string\",\"description\":\"The name of the new entity\"}},\"required\":[\"name\"]}"
    );
    assert_eq!(specs[2].returns_json, "{\"type\":\"boolean\"}");
    assert!(specs[1].requires_confirmation);
    assert!(!specs[0].requires_confirmation);
}
