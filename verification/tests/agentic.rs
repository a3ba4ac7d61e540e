use abigail::agentic::{
    AgenticEvent, AgenticLoop, AgenticRun, ConfirmReply, LoopAction, LoopInput, RunConfig, RunStatus, ToolCallInfo,
};

fn config(max_turns: u32, require_confirmation: bool) -> RunConfig {
    RunConfig { goal: "Test goal".into(), max_turns, require_confirmation, system_context: None }
}

#[test]
fn test_agentic_run_creation() {
    let run = AgenticRun::new("test-123".into(), config(5, false));
    assert_eq!(run.status, RunStatus::Pending);
    assert_eq!(run.current_turn, 0);
    assert!(run.events.is_empty());
}

#[test]
fn test_agentic_engine_simple_run() {
    let mut l = AgenticLoop::new(AgenticRun::new("t1".into(), config(3, false)));
    assert!(matches!(l.step(LoopInput::Start), LoopAction::CheckCancel));
    assert!(matches!(l.step(LoopInput::Gate { cancelled: false }), LoopAction::CallModel));
    let a = l.step(LoopInput::ModelReply { content: "I have completed the goal. Task complete.".into(), tool_calls: None });
    assert!(matches!(a, LoopAction::Done(Ok(()))));
    assert_eq!(l.run.status, RunStatus::Completed);
    assert!(matches!(l.run.events[0], AgenticEvent::RunStarted { .. }));
    assert!(matches!(l.run.events.last().unwrap(), AgenticEvent::RunCompleted { .. }));
}

#[test]
fn test_agentic_engine_cancellation() {
    let mut l = AgenticLoop::new(AgenticRun::new("t2".into(), config(3, false)));
    l.step(LoopInput::Start);
    assert!(matches!(l.step(LoopInput::Gate { cancelled: true }), LoopAction::Done(Ok(()))));
    assert_eq!(l.run.status, RunStatus::Cancelled);
    // A finished run ignores further input.
    let before = l.run.events.len();
    assert!(matches!(l.step(LoopInput::Gate { cancelled: false }), LoopAction::Ignored));
    assert_eq!(l.run.events.len(), before);
}

#[test]
fn tool_calls_ask_for_confirmation_when_configured() {
    let mut l = AgenticLoop::new(AgenticRun::new("t3".into(), config(3, true)));
    l.step(LoopInput::Start);
    l.step(LoopInput::Gate { cancelled: false });
    let call = ToolCallInfo { id: "call_1".into(), name: "search".into(), arguments: "{}".into() };
    let a = l.step(LoopInput::ModelReply { content: "searching".into(), tool_calls: Some(vec![call]) });
    assert!(matches!(a, LoopAction::Confirm(ref c) if c.name == "search"));
    assert_eq!(l.run.status, RunStatus::WaitingForConfirmation);
    let a = l.step(LoopInput::Confirmation(ConfirmReply::Approved));
    assert!(matches!(a, LoopAction::Execute(ref c) if c.id == "call_1"));
    l.step(LoopInput::ToolResult(Ok("found".into())));
    assert!(l.run.events.iter().any(|e| matches!(e, AgenticEvent::ToolExecuted { tool_name, .. } if tool_name == "search")));
}

#[test]
fn model_error_fails_the_run() {
    let mut l = AgenticLoop::new(AgenticRun::new("t4".into(), config(2, false)));
    l.step(LoopInput::Start);
    l.step(LoopInput::Gate { cancelled: false });
    let a = l.step(LoopInput::ModelError("boom".into()));
    assert!(matches!(a, LoopAction::Done(Err(ref e)) if e == "boom"));
    assert_eq!(l.run.status, RunStatus::Failed);
}

#[test]
fn last_turn_completes_the_run() {
    let mut l = AgenticLoop::new(AgenticRun::new("t5".into(), config(1, false)));
    l.step(LoopInput::Start);
    l.step(LoopInput::Gate { cancelled: false });
    let a = l.step(LoopInput::ModelReply { content: "still thinking".into(), tool_calls: None });
    assert!(matches!(a, LoopAction::Done(Ok(()))));
    assert_eq!(l.run.current_turn, 1);
}

fn call(id: &str, name: &str) -> ToolCallInfo {
    ToolCallInfo { id: id.into(), name: name.into(), arguments: "{}".into() }
}

fn task_id_of(e: &AgenticEvent) -> &str {
    match e {
        AgenticEvent::RunStarted { task_id, .. }
        | AgenticEvent::TurnStarted { task_id, .. }
        | AgenticEvent::LlmResponse { task_id, .. }
        | AgenticEvent::ToolExecuted { task_id, .. }
        | AgenticEvent::MentorAsk { task_id, .. }
        | AgenticEvent::ToolConfirmation { task_id, .. }
        | AgenticEvent::TurnCompleted { task_id, .. }
        | AgenticEvent::RunCompleted { task_id, .. }
        | AgenticEvent::RunFailed { task_id, .. }
        | AgenticEvent::RunCancelled { task_id } => task_id,
    }
}

#[test]
fn single_turn_run_records_the_whole_event_list() {
    let mut l = AgenticLoop::new(AgenticRun::new("t".into(), RunConfig {
        goal: "G".into(),
        max_turns: 1,
        require_confirmation: false,
        system_context: None,
    }));
    l.step(LoopInput::Start);
    l.step(LoopInput::Gate { cancelled: false });
    let a = l.step(LoopInput::ModelReply { content: "Working on it.".into(), tool_calls: None });
    assert!(matches!(a, LoopAction::Done(Ok(()))));
    assert_eq!(l.run.status, RunStatus::Completed);
    assert_eq!(l.run.current_turn, 1);
    assert_eq!(l.run.events.len(), 4);
    assert!(matches!(&l.run.events[0], AgenticEvent::RunStarted { goal, .. } if goal == "G"));
    assert!(matches!(&l.run.events[1], AgenticEvent::TurnStarted { turn_number: 1, .. }));
    assert!(matches!(&l.run.events[2], AgenticEvent::LlmResponse { content, tool_calls, .. }
        if content == "Working on it." && tool_calls.is_empty()));
    assert!(matches!(&l.run.events[3], AgenticEvent::RunCompleted { summary, .. } if summary == "Working on it."));
    assert!(l.run.events.iter().all(|e| task_id_of(e) == "t"));
    let done = l.run.completed_at.clone().unwrap();
    assert!(done.ends_with("+00:00") && done.as_bytes()[10] == b'T');
}

#[test]
fn cancelled_gate_records_only_the_cancellation() {
    let mut l = AgenticLoop::new(AgenticRun::new("test-cancel".into(), config(100, false)));
    l.step(LoopInput::Start);
    l.step(LoopInput::Gate { cancelled: true });
    assert_eq!(l.run.events.len(), 2);
    assert!(matches!(&l.run.events[1], AgenticEvent::RunCancelled { task_id } if task_id == "test-cancel"));
    assert!(l.run.completed_at.is_some());
}

#[test]
fn denied_tool_is_skipped_and_the_next_one_asked() {
    let mut l = AgenticLoop::new(AgenticRun::new("t".into(), config(2, true)));
    l.step(LoopInput::Start);
    l.step(LoopInput::Gate { cancelled: false });
    let a = l.step(LoopInput::ModelReply {
        content: "using tools".into(),
        tool_calls: Some(vec![call("1", "search"), call("2", "fetch")]),
    });
    assert!(matches!(a, LoopAction::Confirm(ref c) if c.name == "search"));
    assert_eq!(l.run.status, RunStatus::WaitingForConfirmation);
    assert!(matches!(l.run.events.last().unwrap(), AgenticEvent::ToolConfirmation { tool_name, .. } if tool_name == "search"));
    let a = l.step(LoopInput::Confirmation(ConfirmReply::Denied));
    assert!(matches!(a, LoopAction::Confirm(ref c) if c.name == "fetch"));
    assert!(l.conversation.iter().any(|m| m.role == "user" && m.content == "Tool 'search' was denied by the mentor."));
    assert!(!l.run.events.iter().any(|e| matches!(e, AgenticEvent::ToolExecuted { .. })));
    let a = l.step(LoopInput::Confirmation(ConfirmReply::Denied));
    assert!(matches!(a, LoopAction::CheckCancel));
    assert_eq!(l.run.status, RunStatus::Running);
}

#[test]
fn tool_error_is_reported_and_the_turn_goes_on() {
    let mut l = AgenticLoop::new(AgenticRun::new("t".into(), config(2, false)));
    l.step(LoopInput::Start);
    l.step(LoopInput::Gate { cancelled: false });
    let a = l.step(LoopInput::ModelReply { content: "x".into(), tool_calls: Some(vec![call("1", "search")]) });
    assert!(matches!(a, LoopAction::Execute(_)));
    let a = l.step(LoopInput::ToolResult(Err("boom".into())));
    assert!(matches!(a, LoopAction::CheckCancel));
    assert_eq!(l.run.status, RunStatus::Running);
    assert!(matches!(&l.run.events[3], AgenticEvent::ToolExecuted { result, .. }
        if result == "Error executing tool 'search': boom"));
    assert_eq!(l.conversation.last().unwrap().content, "Tool 'search' result: Error executing tool 'search': boom");
}
