//! Autonomous multi-turn runs: the goal → LLM → tools → check loop with
//! mentor interaction points, written as a state machine. The caller performs
//! each requested action (calling the model, asking for confirmation, running
//! a tool, waiting for the mentor, observing cancellation) and feeds the
//! outcome back in.
use vstd::prelude::*;
use crate::clock::{is_rfc3339_utc, now_rfc3339};
use crate::text::{append_str, contains_any_of, contains_any, chars_of, lowercase, string_of, strs_view, to_lowercase};

verus! {

/// Status of an agentic run.
#[derive(Debug, Clone, Copy, PartialEq, Eq, Structural)]
pub enum RunStatus {
    /// Queued, not started.
    Pending,
    /// Executing.
    Running,
    /// Paused for mentor input.
    WaitingForInput,
    /// Paused for a tool confirmation.
    WaitingForConfirmation,
    /// Finished normally.
    Completed,
    /// Stopped by a model failure.
    Failed,
    /// Cancelled by the user.
    Cancelled,
}

/// A run in this status is over.
pub open spec fn is_terminal(s: RunStatus) -> bool {
    s is Completed || s is Failed || s is Cancelled
}

/// A tool call as shown in events.
#[derive(Debug)]
pub struct ToolCallInfo {
    pub id: String,
    pub name: String,
    pub arguments: String,
}

impl Clone for ToolCallInfo {
    fn clone(&self) -> (c: Self)
        ensures
            c == *self,
    {
        ToolCallInfo { id: self.id.clone(), name: self.name.clone(), arguments: self.arguments.clone() }
    }
}

/// Events of a run, in the order they happen.
#[derive(Debug)]
pub enum AgenticEvent {
    RunStarted { task_id: String, goal: String },
    TurnStarted { task_id: String, turn_number: u32 },
    LlmResponse { task_id: String, content: String, tool_calls: Vec<ToolCallInfo> },
    ToolExecuted { task_id: String, tool_name: String, result: String },
    MentorAsk { task_id: String, question: String },
    ToolConfirmation { task_id: String, tool_name: String, params: String },
    TurnCompleted { task_id: String, turn_number: u32 },
    RunCompleted { task_id: String, summary: String },
    RunFailed { task_id: String, error: String },
    RunCancelled { task_id: String },
}

/// Configuration of a run.
#[derive(Debug)]
pub struct RunConfig {
    /// What the agent should accomplish.
    pub goal: String,
    /// Largest number of model turns.
    pub max_turns: u32,
    /// Ask the mentor before each tool call.
    pub require_confirmation: bool,
    /// System context put before the conversation.
    pub system_context: Option<String>,
}

impl Default for RunConfig {
    fn default() -> (c: Self)
        ensures
            c.goal@ == Seq::<char>::empty(),
            c.max_turns == 10,
            !c.require_confirmation,
            c.system_context is None,
    {
        RunConfig { goal: String::new(), max_turns: 10, require_confirmation: false, system_context: None }
    }
}

/// One message of the conversation with the model.
#[derive(Debug)]
pub struct ChatMessage {
    pub role: String,
    pub content: String,
}

/// State of a single run.
#[derive(Debug)]
pub struct AgenticRun {
    pub task_id: String,
    pub config: RunConfig,
    pub status: RunStatus,
    pub current_turn: u32,
    pub events: Vec<AgenticEvent>,
    pub messages: Vec<ChatMessage>,
    pub created_at: String,
    pub completed_at: Option<String>,
}

impl AgenticRun {
    /// A pending run with no events.
    pub fn new(task_id: String, config: RunConfig) -> (r: Self)
        ensures
            r.task_id == task_id,
            r.config == config,
            r.status == RunStatus::Pending,
            r.current_turn == 0,
            r.events@.len() == 0,
            r.messages@.len() == 0,
            r.completed_at is None,
    {
        AgenticRun {
            task_id,
            config,
            status: RunStatus::Pending,
            current_turn: 0,
            events: Vec::new(),
            messages: Vec::new(),
            created_at: now_rfc3339(),
            completed_at: None,
        }
    }
}

fn clone_calls(calls: &Vec<ToolCallInfo>) -> (r: Vec<ToolCallInfo>)
    ensures
        r@ == calls@,
{
    let mut r: Vec<ToolCallInfo> = Vec::new();
    let mut i: usize = 0;
    while i < calls.len()
        invariant
            i <= calls@.len(),
            r@ =~= calls@.take(i as int),
        decreases calls@.len() - i,
    {
        r.push(calls[i].clone());
        i += 1;
    }
    assert(r@ =~= calls@);
    r
}

/// Where the loop stands.
#[derive(Debug)]
pub enum LoopPhase {
    /// `Start` not yet received.
    NotStarted,
    /// About to begin `turn`; waits to learn whether the run was cancelled.
    TurnGate { turn: u32 },
    /// Waits for the model's reply in `turn`.
    AwaitingModel { turn: u32 },
    /// Works through the tool calls of `turn`; `calls[next]` is pending, and
    /// `confirmed` tells whether it is past its confirmation.
    Tools { turn: u32, calls: Vec<ToolCallInfo>, next: usize, confirmed: bool },
    /// Waits for the mentor's answer in `turn`.
    AwaitingMentor { turn: u32 },
    /// The run is over.
    Finished,
}

/// Outcome of a confirmation request.
#[derive(Debug, Clone, Copy, PartialEq, Eq, Structural)]
pub enum ConfirmReply {
    Approved,
    /// Denied, or the confirmation channel closed.
    Denied,
    Cancelled,
}

/// Outcome of waiting for the mentor.
#[derive(Debug)]
pub enum MentorReply {
    Answer(String),
    /// The mentor channel closed.
    Closed,
    Cancelled,
}

/// What the caller reports back.
#[derive(Debug)]
pub enum LoopInput {
    Start,
    Gate { cancelled: bool },
    ModelReply { content: String, tool_calls: Option<Vec<ToolCallInfo>> },
    ModelError(String),
    Confirmation(ConfirmReply),
    ToolResult(Result<String, String>),
    Mentor(MentorReply),
}

/// What the caller must do next.
#[derive(Debug)]
pub enum LoopAction {
    /// Report whether the run was cancelled (`Gate`).
    CheckCancel,
    /// Call the model with `conversation` (`ModelReply` / `ModelError`).
    CallModel,
    /// Ask the mentor to confirm this call (`Confirmation`).
    Confirm(ToolCallInfo),
    /// Run this tool call (`ToolResult`).
    Execute(ToolCallInfo),
    /// Wait for the mentor (`Mentor`).
    AwaitMentor,
    /// The run is over; `Err` carries the model's error.
    Done(Result<(), String>),
    /// The input does not fit the current phase; nothing changed.
    Ignored,
}

/// The first user message of a run.
pub open spec fn goal_prompt(goal: Seq<char>) -> Seq<char> {
    "Your goal: "@ + goal + "\n\nWork autonomously to accomplish this goal. Use the available tools as needed. When you believe the goal is accomplished, summarize what you did."@
}

/// Message telling the model a tool call was denied.
pub open spec fn denied_text(name: Seq<char>) -> Seq<char> {
    "Tool '"@ + name + "' was denied by the mentor."@
}

/// Text of a tool result, or of its error.
pub open spec fn tool_outcome_text(name: Seq<char>, r: Result<String, String>) -> Seq<char> {
    match r {
        Ok(s) => s@,
        Err(e) => "Error executing tool '"@ + name + "': "@ + e@,
    }
}

/// Message giving the model a tool's result.
pub open spec fn result_text(name: Seq<char>, outcome: Seq<char>) -> Seq<char> {
    "Tool '"@ + name + "' result: "@ + outcome
}

/// Phrases by which the model asks the mentor a question.
pub open spec fn question_phrases() -> Seq<Seq<char>> {
    seq!["question for mentor"@, "i need your input"@, "please clarify"@]
}

/// Phrases by which the model says it is done.
pub open spec fn completion_phrases() -> Seq<Seq<char>> {
    seq!["goal accomplished"@, "task complete"@, "i have completed"@]
}

/// The run's summary: the last message, or a fixed text for none.
pub open spec fn summary_of(conv: Seq<ChatMessage>) -> Seq<char> {
    if conv.len() > 0 {
        conv.last().content@
    } else {
        "Run completed"@
    }
}

/// The turn a phase belongs to (0 for none).
pub open spec fn phase_turn(p: LoopPhase) -> int {
    match p {
        LoopPhase::TurnGate { turn } => turn as int,
        LoopPhase::AwaitingModel { turn } => turn as int,
        LoopPhase::Tools { turn, .. } => turn as int,
        LoopPhase::AwaitingMentor { turn } => turn as int,
        _ => 0,
    }
}

/// The loop `after` has finished the run as completed, from events `b` and
/// conversation `conv`: a `RunCompleted` event with the run's task id and
/// the conversation's summary is added, the conversation is kept as the
/// run's messages, and the completion time is set.
pub open spec fn finished(b: Seq<AgenticEvent>, conv: Seq<ChatMessage>, after: AgenticLoop, a: LoopAction) -> bool {
    &&& a == LoopAction::Done(Ok(()))
    &&& after.phase is Finished
    &&& after.run.status == RunStatus::Completed
    &&& after.run.completed_at is Some
    &&& is_rfc3339_utc(after.run.completed_at->0@)
    &&& after.conversation@ == conv
    &&& after.run.messages@ == conv
    &&& after.run.events@.len() == b.len() + 1
    &&& after.run.events@.drop_last() == b
    &&& after.run.events@.last() is RunCompleted
    &&& after.run.events@.last()->RunCompleted_task_id == after.run.task_id
    &&& after.run.events@.last()->summary@ == summary_of(conv)
}

/// The loop `after` has cancelled the run, from events `b`, conversation
/// `conv` and run messages `msgs`: one `RunCancelled` event is added and the
/// completion time is set.
pub open spec fn cancelled(b: Seq<AgenticEvent>, conv: Seq<ChatMessage>, msgs: Seq<ChatMessage>, after: AgenticLoop, a: LoopAction) -> bool {
    &&& a == LoopAction::Done(Ok(()))
    &&& after.phase is Finished
    &&& after.run.status == RunStatus::Cancelled
    &&& after.run.completed_at is Some
    &&& is_rfc3339_utc(after.run.completed_at->0@)
    &&& after.conversation@ == conv
    &&& after.run.messages@ == msgs
    &&& after.run.events@ == b.push(AgenticEvent::RunCancelled { task_id: after.run.task_id })
}

/// The loop `after` has closed turn `turn`: a `TurnCompleted` event is
/// added; before the last turn the next turn's gate follows, after it the
/// run finishes.
pub open spec fn turn_ended(b: Seq<AgenticEvent>, conv: Seq<ChatMessage>, msgs: Seq<ChatMessage>, after: AgenticLoop, a: LoopAction, turn: u32) -> bool {
    let e1 = b.push(AgenticEvent::TurnCompleted { task_id: after.run.task_id, turn_number: turn });
    if turn < after.run.config.max_turns {
        &&& a == LoopAction::CheckCancel
        &&& after.phase == LoopPhase::TurnGate { turn: (turn + 1) as u32 }
        &&& after.run.status == RunStatus::Running
        &&& after.run.events@ == e1
        &&& after.conversation@ == conv
        &&& after.run.messages@ == msgs
    } else {
        finished(e1, conv, after, a)
    }
}

/// The loop `after` has moved on to tool call `next` of `calls` in turn
/// `turn`: with confirmation required, a `ToolConfirmation` event for it is
/// added and the mentor is asked; otherwise it is run at once; past the last
/// call the turn ends.
pub open spec fn tools_proceeded(
    b: Seq<AgenticEvent>,
    conv: Seq<ChatMessage>,
    msgs: Seq<ChatMessage>,
    after: AgenticLoop,
    a: LoopAction,
    turn: u32,
    calls: Vec<ToolCallInfo>,
    next: int,
) -> bool {
    if next < calls@.len() {
        if after.run.config.require_confirmation {
            &&& a == LoopAction::Confirm(calls@[next])
            &&& after.run.status == RunStatus::WaitingForConfirmation
            &&& after.phase == (LoopPhase::Tools { turn, calls, next: next as usize, confirmed: false })
            &&& after.run.events@ == b.push(AgenticEvent::ToolConfirmation {
                task_id: after.run.task_id,
                tool_name: calls@[next].name,
                params: calls@[next].arguments,
            })
            &&& after.conversation@ == conv
            &&& after.run.messages@ == msgs
        } else {
            &&& a == LoopAction::Execute(calls@[next])
            &&& after.run.status == RunStatus::Running
            &&& after.phase == (LoopPhase::Tools { turn, calls, next: next as usize, confirmed: true })
            &&& after.run.events@ == b
            &&& after.conversation@ == conv
            &&& after.run.messages@ == msgs
        }
    } else {
        turn_ended(b, conv, msgs, after, a, turn)
    }
}

/// The input is what the phase waits for.
pub open spec fn fits(p: LoopPhase, input: LoopInput) -> bool {
    match (p, input) {
        (LoopPhase::NotStarted, LoopInput::Start) => true,
        (LoopPhase::TurnGate { .. }, LoopInput::Gate { .. }) => true,
        (LoopPhase::AwaitingModel { .. }, LoopInput::ModelReply { .. }) => true,
        (LoopPhase::AwaitingModel { .. }, LoopInput::ModelError(_)) => true,
        (LoopPhase::Tools { confirmed, .. }, LoopInput::Confirmation(_)) => !confirmed,
        (LoopPhase::Tools { confirmed, .. }, LoopInput::ToolResult(_)) => confirmed,
        (LoopPhase::AwaitingMentor { .. }, LoopInput::Mentor(_)) => true,
        _ => false,
    }
}

/// What one step of the loop does: from `before`, on `input`, the loop
/// becomes `after` and asks for `a` (the contract of `AgenticLoop::step`).
pub open spec fn stepped(before: AgenticLoop, input: LoopInput, after: AgenticLoop, a: LoopAction) -> bool {
    &&& (after.wf())
    &&& (before.run.events@.is_prefix_of(after.run.events@))
    &&& (after.run.task_id == before.run.task_id)
    &&& (after.run.config == before.run.config)
    &&& (is_terminal(before.run.status) ==> (a is Ignored && after == before))
    &&& (a is Ignored ==> after == before)
    &&& (!fits(before.phase, input) ==> a is Ignored)
    &&& (a is CallModel ==> before.phase is TurnGate && input is Gate && !input->cancelled)
    &&& (after.run.created_at == before.run.created_at)
    &&& (!(before.phase is TurnGate && input is Gate) ==> after.run.current_turn == before.run.current_turn)
    &&& ((before.phase is NotStarted && input is Start) ==> ({
        let sys: int = if before.run.config.system_context is Some { 1 } else { 0 };
        let b = before.run.events@.push(AgenticEvent::RunStarted {
            task_id: before.run.task_id,
            goal: before.run.config.goal,
        });
        &&& after.conversation@.len() == before.conversation@.len() + sys + 1
        &&& after.conversation@.take(before.conversation@.len() as int) =~= before.conversation@
        &&& (before.run.config.system_context matches Some(ctx) ==> (
            after.conversation@[before.conversation@.len() as int].role@ == "system"@
            && after.conversation@[before.conversation@.len() as int].content@ == ctx@))
        &&& after.conversation@.last().role@ == "user"@
        &&& after.conversation@.last().content@ == goal_prompt(before.run.config.goal@)
        &&& (before.run.config.max_turns >= 1 ==> (
            a == LoopAction::CheckCancel && after.phase == LoopPhase::TurnGate { turn: 1 }
            && after.run.status == RunStatus::Running && after.run.events@ == b
            && after.run.messages == before.run.messages))
        &&& (before.run.config.max_turns == 0 ==> finished(b, after.conversation@, after, a))
    }))
    &&& ((before.phase is TurnGate && input is Gate && input->cancelled) ==>
        cancelled(before.run.events@, before.conversation@, before.run.messages@, after, a)
        && after.run.current_turn == before.run.current_turn)
    &&& ((before.phase is TurnGate && input is Gate && !input->cancelled) ==> (
        a == LoopAction::CallModel && after.run.current_turn == phase_turn(before.phase)
        && after.phase == LoopPhase::AwaitingModel { turn: after.run.current_turn }
        && after.run.status == RunStatus::Running
        && after.run.events@ == before.run.events@.push(AgenticEvent::TurnStarted {
            task_id: before.run.task_id,
            turn_number: after.run.current_turn,
        })
        && after.conversation == before.conversation
        && after.run.messages == before.run.messages))
    &&& (input matches LoopInput::ModelError(e) ==> (before.phase is AwaitingModel ==> (
        a == LoopAction::Done(Err(e)) && after.run.status == RunStatus::Failed
        && after.phase is Finished && after.run.completed_at is Some
        && is_rfc3339_utc(after.run.completed_at->0@)
        && after.run.events@ == before.run.events@.push(AgenticEvent::RunFailed {
            task_id: before.run.task_id,
            error: e,
        })
        && after.conversation == before.conversation
        && after.run.messages == before.run.messages)))
    &&& (input matches LoopInput::ModelReply { content, tool_calls } ==> (before.phase is AwaitingModel ==> ({
        let turn = phase_turn(before.phase) as u32;
        let n = before.run.events@.len() as int;
        let b = before.run.events@.push(after.run.events@[n]);
        let conv = before.conversation@.push(after.conversation@[before.conversation@.len() as int]);
        let msgs = before.run.messages@;
        let lower = lowercase(content@);
        &&& after.run.events@.len() > n
        &&& after.run.events@[n] is LlmResponse
        &&& after.run.events@[n]->LlmResponse_task_id == before.run.task_id
        &&& after.run.events@[n]->content == content
        &&& after.run.events@[n]->tool_calls@ == (match tool_calls {
            Some(c) => c@,
            None => Seq::<ToolCallInfo>::empty(),
        })
        &&& after.conversation@.len() > before.conversation@.len()
        &&& after.conversation@[before.conversation@.len() as int].role@ == "assistant"@
        &&& after.conversation@[before.conversation@.len() as int].content@ == content@
        &&& (tool_calls matches Some(calls) ==> tools_proceeded(b, conv, msgs, after, a, turn, calls, 0))
        &&& (tool_calls is None && contains_any(lower, question_phrases()) ==> (
            a == LoopAction::AwaitMentor && after.run.status == RunStatus::WaitingForInput
            && after.phase == LoopPhase::AwaitingMentor { turn }
            && after.run.events@ == b.push(AgenticEvent::MentorAsk { task_id: before.run.task_id, question: content })
            && after.conversation@ == conv && after.run.messages@ == msgs))
        &&& (tool_calls is None && !contains_any(lower, question_phrases())
            && (turn == before.run.config.max_turns || contains_any(lower, completion_phrases())) ==>
            finished(b, conv, after, a))
        &&& (tool_calls is None && !contains_any(lower, question_phrases())
            && turn < before.run.config.max_turns && !contains_any(lower, completion_phrases()) ==>
            turn_ended(b, conv, msgs, after, a, turn))
    })))
    &&& (input matches LoopInput::Confirmation(reply) ==> ((before.phase is Tools && !before.phase->confirmed) ==> ({
        let turn = before.phase->Tools_turn;
        let calls = before.phase->calls;
        let next = before.phase->next as int;
        &&& (reply is Cancelled ==>
            cancelled(before.run.events@, before.conversation@, before.run.messages@, after, a))
        &&& (reply is Approved ==> (a == LoopAction::Execute(calls@[next])
            && after.run.status == RunStatus::Running
            && after.phase == (LoopPhase::Tools { turn, calls, next: next as usize, confirmed: true })
            && after.run.events@ == before.run.events@
            && after.conversation == before.conversation
            && after.run.messages == before.run.messages))
        &&& (reply is Denied ==> (
            after.conversation@.len() > before.conversation@.len()
            && after.conversation@[before.conversation@.len() as int].role@ == "user"@
            && after.conversation@[before.conversation@.len() as int].content@ == denied_text(calls@[next].name@)
            && tools_proceeded(before.run.events@,
                before.conversation@.push(after.conversation@[before.conversation@.len() as int]),
                before.run.messages@, after, a, turn, calls, next + 1)))
    })))
    &&& (input matches LoopInput::ToolResult(r) ==> ((before.phase is Tools && before.phase->confirmed) ==> ({
        let turn = before.phase->Tools_turn;
        let calls = before.phase->calls;
        let next = before.phase->next as int;
        let n = before.run.events@.len() as int;
        &&& after.run.events@.len() > n
        &&& after.run.events@[n] is ToolExecuted
        &&& after.run.events@[n]->ToolExecuted_task_id == before.run.task_id
        &&& after.run.events@[n]->ToolExecuted_tool_name == calls@[next].name
        &&& after.run.events@[n]->result@ == tool_outcome_text(calls@[next].name@, r)
        &&& after.conversation@.len() > before.conversation@.len()
        &&& after.conversation@[before.conversation@.len() as int].role@ == "user"@
        &&& after.conversation@[before.conversation@.len() as int].content@
            == result_text(calls@[next].name@, tool_outcome_text(calls@[next].name@, r))
        &&& tools_proceeded(before.run.events@.push(after.run.events@[n]),
            before.conversation@.push(after.conversation@[before.conversation@.len() as int]),
            before.run.messages@, after, a, turn, calls, next + 1)
    })))
    &&& (input matches LoopInput::Mentor(reply) ==> (before.phase is AwaitingMentor ==> ({
        let turn = phase_turn(before.phase) as u32;
        &&& (reply is Cancelled ==>
            cancelled(before.run.events@, before.conversation@, before.run.messages@, after, a))
        &&& (reply is Closed ==> finished(before.run.events@, before.conversation@, after, a))
        &&& (reply is Answer ==> (
            after.conversation@.len() > before.conversation@.len()
            && after.conversation@[before.conversation@.len() as int].role@ == "user"@
            && after.conversation@[before.conversation@.len() as int].content@ == reply->Answer_0@
            && turn_ended(before.run.events@,
                before.conversation@.push(after.conversation@[before.conversation@.len() as int]),
                before.run.messages@, after, a, turn)))
    })))
}

/// A run loop: the run's record, the working conversation and the phase.
pub struct AgenticLoop {
    pub run: AgenticRun,
    pub conversation: Vec<ChatMessage>,
    pub phase: LoopPhase,
}

impl AgenticLoop {
    /// Well-formedness: turns stay within `1..=max_turns`, pending tool
    /// calls are in range, and a finished loop has a terminal status.
    pub open spec fn wf(&self) -> bool {
        &&& (self.phase is NotStarted) == (self.run.status is Pending)
        &&& (self.phase is Finished) <==> is_terminal(self.run.status)
        &&& !(self.phase is NotStarted || self.phase is Finished) ==> 1 <= phase_turn(self.phase) <= self.run.config.max_turns
        &&& self.run.current_turn <= self.run.config.max_turns
        &&& (self.phase matches LoopPhase::Tools { calls, next, .. } ==> next < calls@.len())
        &&& (self.phase matches LoopPhase::Tools { calls, next, confirmed, .. } ==>
                (self.run.status is WaitingForConfirmation <==> (self.run.config.require_confirmation && !confirmed)))
        &&& (self.phase is AwaitingMentor ==> self.run.status is WaitingForInput)
        &&& ((self.phase is TurnGate || self.phase is AwaitingModel) ==> self.run.status is Running)
        &&& ((self.phase matches LoopPhase::Tools { confirmed, .. }) && !self.run.config.require_confirmation ==> self.run.status is Running)
        &&& ((self.phase matches LoopPhase::Tools { confirmed, .. } && confirmed) ==> self.run.status is Running)
    }

    /// A loop around a pending run.
    pub fn new(run: AgenticRun) -> (l: Self)
        requires
            run.status is Pending,
            run.current_turn <= run.config.max_turns,
        ensures
            l.wf(),
            l.run == run,
            l.conversation@.len() == 0,
            l.phase is NotStarted,
    {
        AgenticLoop { run, conversation: Vec::new(), phase: LoopPhase::NotStarted }
    }

    fn push_message(&mut self, role: &str, content: Vec<char>)
        ensures
            final(self).run == old(self).run,
            final(self).phase == old(self).phase,
            final(self).conversation@ == old(self).conversation@.push(ChatMessage { role: final(self).conversation@.last().role, content: final(self).conversation@.last().content }),
            final(self).conversation@.last().role@ == role@,
            final(self).conversation@.last().content@ == content@,
    {
        let m = ChatMessage { role: role.to_owned(), content: string_of(content.as_slice()) };
        self.conversation.push(m);
    }

    /// Close the run as completed.
    fn finish(&mut self) -> (a: LoopAction)
        ensures
            finished(old(self).run.events@, old(self).conversation@, *final(self), a),
            final(self).run.task_id == old(self).run.task_id,
            final(self).run.config == old(self).run.config,
            final(self).run.current_turn == old(self).run.current_turn,
            final(self).run.created_at == old(self).run.created_at,
    {
        let mut copy: Vec<ChatMessage> = Vec::new();
        let mut i: usize = 0;
        while i < self.conversation.len()
            invariant
                i <= self.conversation@.len(),
                copy@ =~= self.conversation@.take(i as int),
            decreases self.conversation@.len() - i,
        {
            let m = ChatMessage { role: self.conversation[i].role.clone(), content: self.conversation[i].content.clone() };
            copy.push(m);
            i += 1;
        }
        assert(copy@ =~= self.conversation@);
        self.run.messages = copy;
        let summary = if self.conversation.len() > 0 {
            self.conversation[self.conversation.len() - 1].content.clone()
        } else {
            "Run completed".to_owned()
        };
        self.run.events.push(AgenticEvent::RunCompleted { task_id: self.run.task_id.clone(), summary });
        proof {
            assert(self.run.events@.drop_last() =~= old(self).run.events@);
        }
        self.run.status = RunStatus::Completed;
        self.run.completed_at = Some(now_rfc3339());
        self.phase = LoopPhase::Finished;
        LoopAction::Done(Ok(()))
    }

    /// Close the run as cancelled.
    fn cancel(&mut self) -> (a: LoopAction)
        ensures
            cancelled(old(self).run.events@, old(self).conversation@, old(self).run.messages@, *final(self), a),
            final(self).run.task_id == old(self).run.task_id,
            final(self).run.config == old(self).run.config,
            final(self).run.current_turn == old(self).run.current_turn,
            final(self).run.created_at == old(self).run.created_at,
    {
        self.run.events.push(AgenticEvent::RunCancelled { task_id: self.run.task_id.clone() });
        proof {
            assert(self.run.events@.drop_last() =~= old(self).run.events@);
        }
        self.run.status = RunStatus::Cancelled;
        self.run.completed_at = Some(now_rfc3339());
        self.phase = LoopPhase::Finished;
        LoopAction::Done(Ok(()))
    }

    /// Close the turn: emit `TurnCompleted`, then go to the next turn's gate
    /// or, after the last turn, finish.
    fn end_turn(&mut self, turn: u32) -> (a: LoopAction)
        requires
            1 <= turn <= old(self).run.config.max_turns,
            old(self).run.status is Running || old(self).run.status is WaitingForInput,
            old(self).run.current_turn <= old(self).run.config.max_turns,
        ensures
            final(self).wf(),
            final(self).run.task_id == old(self).run.task_id,
            final(self).run.config == old(self).run.config,
            final(self).run.current_turn == old(self).run.current_turn,
            final(self).run.created_at == old(self).run.created_at,
            turn_ended(old(self).run.events@, old(self).conversation@, old(self).run.messages@, *final(self), a, turn),
    {
        self.run.events.push(AgenticEvent::TurnCompleted { task_id: self.run.task_id.clone(), turn_number: turn });
        let ghost mid = self.run.events@;
        if turn < self.run.config.max_turns {
            self.run.status = RunStatus::Running;
            self.phase = LoopPhase::TurnGate { turn: turn + 1 };
            proof {
                assert(self.run.events@[old(self).run.events@.len() as int] == mid.last());
                assert(old(self).run.events@.push(self.run.events@[old(self).run.events@.len() as int]) =~= self.run.events@);
            }
            LoopAction::CheckCancel
        } else {
            let a = self.finish();
            proof {
                assert(self.run.events@.drop_last() == mid);
                assert(self.run.events@[old(self).run.events@.len() as int] == mid[old(self).run.events@.len() as int]);
                assert(old(self).run.events@.push(self.run.events@[old(self).run.events@.len() as int]) =~= mid);
                assert(mid.is_prefix_of(self.run.events@));
            }
            a
        }
    }

    /// Move on to the pending tool call at `next`, or close the turn when
    /// all calls are done.
    fn proceed_tools(&mut self, turn: u32, calls: Vec<ToolCallInfo>, next: usize) -> (a: LoopAction)
        requires
            1 <= turn <= old(self).run.config.max_turns,
            next <= calls@.len(),
            old(self).run.status is Running,
            old(self).run.current_turn <= old(self).run.config.max_turns,
        ensures
            final(self).wf(),
            final(self).run.task_id == old(self).run.task_id,
            final(self).run.config == old(self).run.config,
            final(self).run.current_turn == old(self).run.current_turn,
            final(self).run.created_at == old(self).run.created_at,
            tools_proceeded(old(self).run.events@, old(self).conversation@, old(self).run.messages@, *final(self), a, turn, calls, next as int),
    {
        if next < calls.len() {
            let call = calls[next].clone();
            if self.run.config.require_confirmation {
                self.run.events.push(AgenticEvent::ToolConfirmation {
                    task_id: self.run.task_id.clone(),
                    tool_name: call.name.clone(),
                    params: call.arguments.clone(),
                });
                self.run.status = RunStatus::WaitingForConfirmation;
                self.phase = LoopPhase::Tools { turn, calls, next, confirmed: false };
                proof {
                    assert(old(self).run.events@.is_prefix_of(self.run.events@)) by {
                        assert(self.run.events@.take(old(self).run.events@.len() as int) =~= old(self).run.events@);
                    }
                }
                LoopAction::Confirm(call)
            } else {
                self.phase = LoopPhase::Tools { turn, calls, next, confirmed: true };
                LoopAction::Execute(call)
            }
        } else {
            self.end_turn(turn)
        }
    }

    /// Handle one reported outcome and say what to do next.
    ///
    /// `Start` opens the run (status `Running`, event `RunStarted`, the
    /// conversation seeded with the system context and the goal). Each turn
    /// first checks for cancellation, then calls the model. A reply with tool
    /// calls runs them in order (asking for confirmation first when the
    /// configuration says so; a denied call is reported to the model and
    /// skipped). A reply without tool calls that asks the mentor a question
    /// waits for the mentor; one that claims completion, or comes in the last
    /// turn, finishes the run; otherwise the next turn begins. A model error
    /// fails the run; cancellation while waiting cancels it.
    pub fn step(&mut self, input: LoopInput) -> (a: LoopAction)
        requires
            old(self).wf(),
        ensures
            stepped(*old(self), input, *final(self), a),
    {
        proof {
            reveal_strlit("assistant");
            reveal_strlit("user");
        }
        match (&self.phase, &input) {
            (LoopPhase::NotStarted, LoopInput::Start) => {},
            (LoopPhase::TurnGate { .. }, LoopInput::Gate { .. }) => {},
            (LoopPhase::AwaitingModel { .. }, LoopInput::ModelReply { .. }) => {},
            (LoopPhase::AwaitingModel { .. }, LoopInput::ModelError(_)) => {},
            (LoopPhase::Tools { confirmed: false, .. }, LoopInput::Confirmation(_)) => {},
            (LoopPhase::Tools { confirmed: true, .. }, LoopInput::ToolResult(_)) => {},
            (LoopPhase::AwaitingMentor { .. }, LoopInput::Mentor(_)) => {},
            _ => {
                return LoopAction::Ignored;
            },
        }
        let mut phase = LoopPhase::Finished;
        std::mem::swap(&mut phase, &mut self.phase);
        match input {
            LoopInput::Start => {
                self.run.status = RunStatus::Running;
                self.run.events.push(AgenticEvent::RunStarted {
                    task_id: self.run.task_id.clone(),
                    goal: self.run.config.goal.clone(),
                });
                match &self.run.config.system_context {
                    Some(ctx) => {
                        let ctx_chars = chars_of(ctx.as_str());
                        self.push_message("system", ctx_chars);
                    },
                    None => {},
                }
                let mut g: Vec<char> = Vec::new();
                append_str(&mut g, "Your goal: ");
                append_str(&mut g, self.run.config.goal.as_str());
                append_str(&mut g, "\n\nWork autonomously to accomplish this goal. Use the available tools as needed. When you believe the goal is accomplished, summarize what you did.");
                self.push_message("user", g);
                let ghost ev1 = self.run.events@;
                if self.run.config.max_turns >= 1 {
                    self.phase = LoopPhase::TurnGate { turn: 1 };
                    proof {
                        assert(old(self).run.events@.is_prefix_of(self.run.events@)) by {
                            assert(self.run.events@.take(old(self).run.events@.len() as int) =~= old(self).run.events@);
                        }
                    }
                    LoopAction::CheckCancel
                } else {
                    let a = self.finish();
                    proof {
                        assert(self.run.events@.drop_last() == ev1);
                        assert(old(self).run.events@.is_prefix_of(self.run.events@)) by {
                            assert(self.run.events@.take(old(self).run.events@.len() as int) =~= old(self).run.events@);
                        }
                        assert(self.run.events@[old(self).run.events@.len() as int] == ev1[old(self).run.events@.len() as int]);
                    }
                    a
                }
            },
            LoopInput::Gate { cancelled } => {
                let turn = match phase {
                    LoopPhase::TurnGate { turn } => turn,
                    _ => 0,
                };
                if cancelled {
                    let a = self.cancel();
                    proof {
                        assert(old(self).run.events@.is_prefix_of(self.run.events@)) by {
                            assert(self.run.events@.take(old(self).run.events@.len() as int) =~= old(self).run.events@);
                        }
                    }
                    a
                } else {
                    self.run.current_turn = turn;
                    self.run.events.push(AgenticEvent::TurnStarted { task_id: self.run.task_id.clone(), turn_number: turn });
                    self.phase = LoopPhase::AwaitingModel { turn };
                    proof {
                        assert(old(self).run.events@.is_prefix_of(self.run.events@)) by {
                            assert(self.run.events@.take(old(self).run.events@.len() as int) =~= old(self).run.events@);
                        }
                        assert(self.run.events@ =~= old(self).run.events@.push(self.run.events@.last()));
                    }
                    LoopAction::CallModel
                }
            },
            LoopInput::ModelError(e) => {
                self.run.events.push(AgenticEvent::RunFailed { task_id: self.run.task_id.clone(), error: e.clone() });
                self.run.status = RunStatus::Failed;
                self.run.completed_at = Some(now_rfc3339());
                proof {
                    assert(old(self).run.events@.is_prefix_of(self.run.events@)) by {
                        assert(self.run.events@.take(old(self).run.events@.len() as int) =~= old(self).run.events@);
                    }
                }
                LoopAction::Done(Err(e))
            },
            LoopInput::ModelReply { content, tool_calls } => {
                let turn = match phase {
                    LoopPhase::AwaitingModel { turn } => turn,
                    _ => 1,
                };
                let infos: Vec<ToolCallInfo> = match &tool_calls {
                    Some(calls) => clone_calls(calls),
                    None => Vec::new(),
                };
                self.run.events.push(AgenticEvent::LlmResponse {
                    task_id: self.run.task_id.clone(),
                    content: content.clone(),
                    tool_calls: infos,
                });
                let ghost ev1 = self.run.events@;
                proof {
                    assert(ev1.take(old(self).run.events@.len() as int) =~= old(self).run.events@);
                }
                let content_chars = chars_of(content.as_str());
                self.push_message("assistant", content_chars);
                match tool_calls {
                    Some(calls) => {
                        let a = self.proceed_tools(turn, calls, 0);
                        proof {
                            assert(ev1.is_prefix_of(self.run.events@));
                            assert(self.run.events@[old(self).run.events@.len() as int] == ev1[old(self).run.events@.len() as int]);
                            assert(self.run.events@.take(old(self).run.events@.len() as int) =~= ev1.take(old(self).run.events@.len() as int));
                        }
                        a
                    },
                    None => {
                        let lower = to_lowercase(content.as_str());
                        let lower_chars = chars_of(lower.as_str());
                        proof {
                            reveal_strlit("question for mentor");
                            reveal_strlit("i need your input");
                            reveal_strlit("please clarify");
                            reveal_strlit("goal accomplished");
                            reveal_strlit("task complete");
                            reveal_strlit("i have completed");
                        }
                        let qs: [&str; 3] = ["question for mentor", "i need your input", "please clarify"];
                        let asks = contains_any_of(lower_chars.as_slice(), &qs);
                        proof {
                            assert(strs_view(qs@) =~= question_phrases());
                        }
                        if asks {
                            self.run.events.push(AgenticEvent::MentorAsk { task_id: self.run.task_id.clone(), question: content });
                            self.run.status = RunStatus::WaitingForInput;
                            self.phase = LoopPhase::AwaitingMentor { turn };
                            proof {
                                assert(self.run.events@.take(old(self).run.events@.len() as int) =~= old(self).run.events@);
                            }
                            LoopAction::AwaitMentor
                        } else {
                            let cs: [&str; 3] = ["goal accomplished", "task complete", "i have completed"];
                            let done = contains_any_of(lower_chars.as_slice(), &cs);
                            proof {
                                assert(strs_view(cs@) =~= completion_phrases());
                            }
                            if turn == self.run.config.max_turns || done {
                                let a = self.finish();
                                proof {
                                    assert(self.run.events@.drop_last() == ev1);
                                    assert(self.run.events@.take(old(self).run.events@.len() as int) =~= old(self).run.events@);
                                    assert(self.run.events@[old(self).run.events@.len() as int] == ev1[old(self).run.events@.len() as int]);
                                }
                                a
                            } else {
                                let a = self.end_turn(turn);
                                proof {
                                    assert(ev1.is_prefix_of(self.run.events@));
                                    assert(self.run.events@[old(self).run.events@.len() as int] == ev1[old(self).run.events@.len() as int]);
                                    assert(self.run.events@.take(old(self).run.events@.len() as int) =~= ev1.take(old(self).run.events@.len() as int));
                                }
                                a
                            }
                        }
                    },
                }
            },
            LoopInput::Confirmation(reply) => {
                let (turn, calls, next) = match phase {
                    LoopPhase::Tools { turn, calls, next, .. } => (turn, calls, next),
                    _ => (1, Vec::new(), 0),
                };
                let ncalls = calls.len();
                proof {
                    assert(next < ncalls);
                }
                match reply {
                    ConfirmReply::Approved => {
                        self.run.status = RunStatus::Running;
                        let call = calls[next].clone();
                        self.phase = LoopPhase::Tools { turn, calls, next, confirmed: true };
                        LoopAction::Execute(call)
                    },
                    ConfirmReply::Denied => {
                        let mut m: Vec<char> = Vec::new();
                        append_str(&mut m, "Tool '");
                        append_str(&mut m, calls[next].name.as_str());
                        append_str(&mut m, "' was denied by the mentor.");
                        self.push_message("user", m);
                        self.run.status = RunStatus::Running;
                        let ghost c1 = self.conversation@;
                        let a = self.proceed_tools(turn, calls, next + 1);
                        proof {
                            assert(self.conversation@ == c1);
                        }
                        a
                    },
                    ConfirmReply::Cancelled => {
                        let a = self.cancel();
                        proof {
                            assert(self.run.events@.take(old(self).run.events@.len() as int) =~= old(self).run.events@);
                        }
                        a
                    },
                }
            },
            LoopInput::ToolResult(r) => {
                let (turn, calls, next) = match phase {
                    LoopPhase::Tools { turn, calls, next, .. } => (turn, calls, next),
                    _ => (1, Vec::new(), 0),
                };
                let ncalls = calls.len();
                proof {
                    assert(next < ncalls);
                }
                let name = calls[next].name.clone();
                let outcome: String = match r {
                    Ok(s) => s,
                    Err(e) => {
                        let mut v: Vec<char> = Vec::new();
                        append_str(&mut v, "Error executing tool '");
                        append_str(&mut v, name.as_str());
                        append_str(&mut v, "': ");
                        append_str(&mut v, e.as_str());
                        string_of(v.as_slice())
                    },
                };
                self.run.events.push(AgenticEvent::ToolExecuted {
                    task_id: self.run.task_id.clone(),
                    tool_name: name.clone(),
                    result: outcome.clone(),
                });
                let ghost ev1 = self.run.events@;
                proof {
                    assert(ev1.take(old(self).run.events@.len() as int) =~= old(self).run.events@);
                }
                let mut m: Vec<char> = Vec::new();
                append_str(&mut m, "Tool '");
                append_str(&mut m, name.as_str());
                append_str(&mut m, "' result: ");
                append_str(&mut m, outcome.as_str());
                self.push_message("user", m);
                let ghost c1 = self.conversation@;
                let a = self.proceed_tools(turn, calls, next + 1);
                proof {
                    assert(self.conversation@ == c1);
                    assert(ev1.is_prefix_of(self.run.events@));
                    assert(self.run.events@[old(self).run.events@.len() as int] == ev1[old(self).run.events@.len() as int]);
                    assert(self.run.events@.take(old(self).run.events@.len() as int) =~= ev1.take(old(self).run.events@.len() as int));
                }
                a
            },
            LoopInput::Mentor(reply) => {
                let turn = match phase {
                    LoopPhase::AwaitingMentor { turn } => turn,
                    _ => 1,
                };
                match reply {
                    MentorReply::Answer(ans) => {
                        let ans_chars = chars_of(ans.as_str());
                        self.push_message("user", ans_chars);
                        self.run.status = RunStatus::Running;
                        let ghost c1 = self.conversation@;
                        let a = self.end_turn(turn);
                        proof {
                            assert(self.conversation@ == c1);
                            assert(self.run.events@.take(old(self).run.events@.len() as int) =~= old(self).run.events@);
                        }
                        a
                    },
                    MentorReply::Closed => {
                        let a = self.finish();
                        proof {
                            assert(self.run.events@.take(old(self).run.events@.len() as int) =~= old(self).run.events@);
                        }
                        a
                    },
                    MentorReply::Cancelled => {
                        let a = self.cancel();
                        proof {
                            assert(self.run.events@.take(old(self).run.events@.len() as int) =~= old(self).run.events@);
                        }
                        a
                    },
                }
            },
        }
    }
}

/// The task id an event carries.
pub open spec fn event_task_id(e: AgenticEvent) -> String {
    match e {
        AgenticEvent::RunStarted { task_id, .. } => task_id,
        AgenticEvent::TurnStarted { task_id, .. } => task_id,
        AgenticEvent::LlmResponse { task_id, .. } => task_id,
        AgenticEvent::ToolExecuted { task_id, .. } => task_id,
        AgenticEvent::MentorAsk { task_id, .. } => task_id,
        AgenticEvent::ToolConfirmation { task_id, .. } => task_id,
        AgenticEvent::TurnCompleted { task_id, .. } => task_id,
        AgenticEvent::RunCompleted { task_id, .. } => task_id,
        AgenticEvent::RunFailed { task_id, .. } => task_id,
        AgenticEvent::RunCancelled { task_id } => task_id,
    }
}

/// An event that ends a run.
pub open spec fn is_end_event(e: AgenticEvent) -> bool {
    e is RunCompleted || e is RunFailed || e is RunCancelled
}

/// The turn numbers of the `TurnStarted` events, in order.
pub open spec fn turn_numbers(events: Seq<AgenticEvent>) -> Seq<u32>
    decreases events.len(),
{
    if events.len() == 0 {
        Seq::empty()
    } else {
        let r = turn_numbers(events.drop_last());
        match events.last() {
            AgenticEvent::TurnStarted { turn_number, .. } => r.push(turn_number),
            _ => r,
        }
    }
}

/// `1, 2, ..., n`.
pub open spec fn one_to(n: nat) -> Seq<u32> {
    Seq::new(n, |j: int| (j + 1) as u32)
}

/// What holds all along a run that starts from a fresh loop with task id
/// `tid`: every event carries `tid`; the turns started so far are
/// numbered `1..=current_turn` in order; the phase's turn is the current
/// one (the next one at a turn gate); a run that has started began with
/// `RunStarted` for its goal; and no event ends the run before it is over.
pub open spec fn run_inv(l: AgenticLoop, tid: String) -> bool {
    &&& l.run.task_id == tid
    &&& forall|k: int| 0 <= k < l.run.events@.len() ==> event_task_id(#[trigger] l.run.events@[k]) == tid
    &&& turn_numbers(l.run.events@) == one_to(l.run.current_turn as nat)
    &&& (l.phase is NotStarted ==> l.run.current_turn == 0 && l.run.events@.len() == 0)
    &&& (l.phase is TurnGate ==> phase_turn(l.phase) == l.run.current_turn + 1)
    &&& ((l.phase is AwaitingModel || l.phase is Tools || l.phase is AwaitingMentor) ==> phase_turn(l.phase) == l.run.current_turn)
    &&& (!(l.phase is NotStarted) ==> l.run.events@.len() > 0 && l.run.events@[0] == AgenticEvent::RunStarted {
        task_id: tid,
        goal: l.run.config.goal,
    })
    &&& (!(l.phase is Finished) ==> forall|k: int| 0 <= k < l.run.events@.len() ==> !is_end_event(#[trigger] l.run.events@[k]))
}

proof fn lemma_push_event(s: Seq<AgenticEvent>, e: AgenticEvent, tid: String)
    requires
        forall|k: int| 0 <= k < s.len() ==> event_task_id(#[trigger] s[k]) == tid,
        event_task_id(e) == tid,
    ensures
        forall|k: int| 0 <= k < s.push(e).len() ==> event_task_id(#[trigger] s.push(e)[k]) == tid,
        turn_numbers(s.push(e)) == (match e {
            AgenticEvent::TurnStarted { turn_number, .. } => turn_numbers(s).push(turn_number),
            _ => turn_numbers(s),
        }),
        (forall|k: int| 0 <= k < s.len() ==> !is_end_event(#[trigger] s[k])) && !is_end_event(e)
            ==> forall|k: int| 0 <= k < s.push(e).len() ==> !is_end_event(#[trigger] s.push(e)[k]),
        s.len() > 0 ==> s.push(e)[0] == s[0],
{
    assert(s.push(e).drop_last() =~= s);
    assert forall|k: int| 0 <= k < s.push(e).len() implies event_task_id(#[trigger] s.push(e)[k]) == tid by {
        if k < s.len() {
            assert(s.push(e)[k] == s[k]);
        }
    }
    if (forall|k: int| 0 <= k < s.len() ==> !is_end_event(#[trigger] s[k])) && !is_end_event(e) {
        assert forall|k: int| 0 <= k < s.push(e).len() implies !is_end_event(#[trigger] s.push(e)[k]) by {
            if k < s.len() {
                assert(s.push(e)[k] == s[k]);
            }
        }
    }
}

proof fn lemma_one_to_push(n: nat)
    requires
        n < u32::MAX,
    ensures
        one_to(n).push((n + 1) as u32) == one_to(n + 1),
{
    assert(one_to(n).push((n + 1) as u32) =~= one_to(n + 1));
}

/// What the events `b` that a step builds on must satisfy for the loop
/// `after` to keep `run_inv`.
pub open spec fn base_ok(b: Seq<AgenticEvent>, after: AgenticLoop, tid: String) -> bool {
    &&& after.run.task_id == tid
    &&& forall|k: int| 0 <= k < b.len() ==> event_task_id(#[trigger] b[k]) == tid
    &&& turn_numbers(b) == one_to(after.run.current_turn as nat)
    &&& b.len() > 0 && b[0] == AgenticEvent::RunStarted { task_id: tid, goal: after.run.config.goal }
    &&& forall|k: int| 0 <= k < b.len() ==> !is_end_event(#[trigger] b[k])
}

proof fn lemma_finished_inv(b: Seq<AgenticEvent>, conv: Seq<ChatMessage>, after: AgenticLoop, a: LoopAction, tid: String)
    requires
        base_ok(b, after, tid),
        finished(b, conv, after, a),
    ensures
        run_inv(after, tid),
{
    let e = after.run.events@.last();
    assert(after.run.events@ =~= b.push(e));
    lemma_push_event(b, e, tid);
}

proof fn lemma_cancelled_inv(b: Seq<AgenticEvent>, conv: Seq<ChatMessage>, msgs: Seq<ChatMessage>, after: AgenticLoop, a: LoopAction, tid: String)
    requires
        base_ok(b, after, tid),
        cancelled(b, conv, msgs, after, a),
    ensures
        run_inv(after, tid),
{
    lemma_push_event(b, AgenticEvent::RunCancelled { task_id: tid }, tid);
}

proof fn lemma_turn_ended_inv(b: Seq<AgenticEvent>, conv: Seq<ChatMessage>, msgs: Seq<ChatMessage>, after: AgenticLoop, a: LoopAction, turn: u32, tid: String)
    requires
        base_ok(b, after, tid),
        turn == after.run.current_turn,
        turn_ended(b, conv, msgs, after, a, turn),
    ensures
        run_inv(after, tid),
{
    let e = AgenticEvent::TurnCompleted { task_id: tid, turn_number: turn };
    lemma_push_event(b, e, tid);
    let e1 = b.push(e);
    if turn >= after.run.config.max_turns {
        lemma_finished_inv(e1, conv, after, a, tid);
    }
}

proof fn lemma_tools_proceeded_inv(
    b: Seq<AgenticEvent>,
    conv: Seq<ChatMessage>,
    msgs: Seq<ChatMessage>,
    after: AgenticLoop,
    a: LoopAction,
    turn: u32,
    calls: Vec<ToolCallInfo>,
    next: int,
    tid: String,
)
    requires
        base_ok(b, after, tid),
        turn == after.run.current_turn,
        tools_proceeded(b, conv, msgs, after, a, turn, calls, next),
    ensures
        run_inv(after, tid),
{
    if next < calls@.len() {
        if after.run.config.require_confirmation {
            lemma_push_event(b, AgenticEvent::ToolConfirmation {
                task_id: tid,
                tool_name: calls@[next].name,
                params: calls@[next].arguments,
            }, tid);
        }
    } else {
        lemma_turn_ended_inv(b, conv, msgs, after, a, turn, tid);
    }
}

/// One step keeps the run invariant (see `run_inv`).
pub proof fn lemma_step_keeps_run_inv(before: AgenticLoop, input: LoopInput, after: AgenticLoop, a: LoopAction, tid: String)
    requires
        before.wf(),
        run_inv(before, tid),
        stepped(before, input, after, a),
    ensures
        run_inv(after, tid),
{
    if a is Ignored {
        return;
    }
    let ev = before.run.events@;
    let n = ev.len() as int;
    match input {
        LoopInput::Start => {
            let b = ev.push(AgenticEvent::RunStarted { task_id: tid, goal: before.run.config.goal });
            lemma_push_event(ev, AgenticEvent::RunStarted { task_id: tid, goal: before.run.config.goal }, tid);
            assert(b[0] == AgenticEvent::RunStarted { task_id: tid, goal: before.run.config.goal });
            if before.run.config.max_turns == 0 {
                lemma_finished_inv(b, after.conversation@, after, a, tid);
            }
        },
        LoopInput::Gate { cancelled: c } => {
            if c {
                lemma_cancelled_inv(ev, before.conversation@, before.run.messages@, after, a, tid);
            } else {
                let e = AgenticEvent::TurnStarted { task_id: tid, turn_number: after.run.current_turn };
                lemma_push_event(ev, e, tid);
                lemma_one_to_push(before.run.current_turn as nat);
            }
        },
        LoopInput::ModelError(err) => {
            lemma_push_event(ev, AgenticEvent::RunFailed { task_id: tid, error: err }, tid);
        },
        LoopInput::ModelReply { content, tool_calls } => {
            let l = after.run.events@[n];
            lemma_push_event(ev, l, tid);
            let b = ev.push(l);
            let conv = before.conversation@.push(after.conversation@[before.conversation@.len() as int]);
            let msgs = before.run.messages@;
            let turn = phase_turn(before.phase) as u32;
            let lower = lowercase(content@);
            match tool_calls {
                Some(calls) => {
                    lemma_tools_proceeded_inv(b, conv, msgs, after, a, turn, calls, 0, tid);
                },
                None => {
                    if contains_any(lower, question_phrases()) {
                        lemma_push_event(b, AgenticEvent::MentorAsk { task_id: tid, question: content }, tid);
                    } else if turn == before.run.config.max_turns || contains_any(lower, completion_phrases()) {
                        lemma_finished_inv(b, conv, after, a, tid);
                    } else {
                        lemma_turn_ended_inv(b, conv, msgs, after, a, turn, tid);
                    }
                },
            }
        },
        LoopInput::Confirmation(reply) => {
            let turn = before.phase->Tools_turn;
            let calls = before.phase->calls;
            let next = before.phase->next as int;
            match reply {
                ConfirmReply::Cancelled => {
                    lemma_cancelled_inv(ev, before.conversation@, before.run.messages@, after, a, tid);
                },
                ConfirmReply::Approved => {},
                ConfirmReply::Denied => {
                    let conv = before.conversation@.push(after.conversation@[before.conversation@.len() as int]);
                    lemma_tools_proceeded_inv(ev, conv, before.run.messages@, after, a, turn, calls, next + 1, tid);
                },
            }
        },
        LoopInput::ToolResult(r) => {
            let turn = before.phase->Tools_turn;
            let calls = before.phase->calls;
            let next = before.phase->next as int;
            let t = after.run.events@[n];
            lemma_push_event(ev, t, tid);
            let conv = before.conversation@.push(after.conversation@[before.conversation@.len() as int]);
            lemma_tools_proceeded_inv(ev.push(t), conv, before.run.messages@, after, a, turn, calls, next + 1, tid);
        },
        LoopInput::Mentor(reply) => {
            let turn = phase_turn(before.phase) as u32;
            match reply {
                MentorReply::Cancelled => {
                    lemma_cancelled_inv(ev, before.conversation@, before.run.messages@, after, a, tid);
                },
                MentorReply::Closed => {
                    lemma_finished_inv(ev, before.conversation@, after, a, tid);
                },
                MentorReply::Answer(_) => {
                    let conv = before.conversation@.push(after.conversation@[before.conversation@.len() as int]);
                    lemma_turn_ended_inv(ev, conv, before.run.messages@, after, a, turn, tid);
                },
            }
        },
    }
}

/// A run of the loop: from `loops[0]`, step `i` takes the input
/// `inputs[i]` to the loop `loops[i + 1]` and the action `actions[i]`.
pub open spec fn is_run(loops: Seq<AgenticLoop>, inputs: Seq<LoopInput>, actions: Seq<LoopAction>) -> bool {
    &&& loops.len() == inputs.len() + 1
    &&& actions.len() == inputs.len()
    &&& loops[0].wf()
    &&& forall|i: int| #![trigger inputs[i]] 0 <= i < inputs.len() ==> stepped(loops[i], inputs[i], loops[i + 1], actions[i])
}

/// A loop around a new run: not started, no turn, no events.
pub open spec fn fresh(l: AgenticLoop) -> bool {
    l.phase is NotStarted && l.run.current_turn == 0 && l.run.events@.len() == 0
}

/// How many times the actions ask for a model call.
pub open spec fn model_calls(actions: Seq<LoopAction>) -> nat
    decreases actions.len(),
{
    if actions.len() == 0 {
        0
    } else {
        model_calls(actions.drop_last()) + if actions.last() is CallModel { 1nat } else { 0nat }
    }
}

proof fn lemma_run_prefix(loops: Seq<AgenticLoop>, inputs: Seq<LoopInput>, actions: Seq<LoopAction>, i: int)
    requires
        is_run(loops, inputs, actions),
        fresh(loops[0]),
        0 <= i <= inputs.len(),
    ensures
        loops[i].wf(),
        run_inv(loops[i], loops[0].run.task_id),
        loops[i].run.config == loops[0].run.config,
        model_calls(actions.take(i)) == loops[i].run.current_turn,
    decreases i,
{
    let tid = loops[0].run.task_id;
    if i == 0 {
        assert(actions.take(0) =~= Seq::<LoopAction>::empty());
        assert(turn_numbers(loops[0].run.events@) =~= one_to(0));
    } else {
        lemma_run_prefix(loops, inputs, actions, i - 1);
        assert(stepped(loops[i - 1], inputs[i - 1], loops[i], actions[i - 1]));
        lemma_step_keeps_run_inv(loops[i - 1], inputs[i - 1], loops[i], actions[i - 1], tid);
        assert(actions.take(i).drop_last() =~= actions.take(i - 1));
        assert(actions.take(i).last() == actions[i - 1]);
    }
}

/// Over a whole run from a fresh loop: the model is asked at most
/// `max_turns` times, once per turn started; the turns started are
/// numbered `1, 2, ..., k` in order with `k` the current turn, at most
/// `max_turns`; every event carries the run's task id; and once started,
/// the first event is `RunStarted` with the run's goal.
pub proof fn lemma_run_turns_and_events(loops: Seq<AgenticLoop>, inputs: Seq<LoopInput>, actions: Seq<LoopAction>, i: int)
    requires
        is_run(loops, inputs, actions),
        fresh(loops[0]),
        0 <= i <= inputs.len(),
    ensures
        model_calls(actions.take(i)) == loops[i].run.current_turn,
        loops[i].run.current_turn <= loops[0].run.config.max_turns,
        turn_numbers(loops[i].run.events@) == one_to(loops[i].run.current_turn as nat),
        forall|k: int| 0 <= k < loops[i].run.events@.len() ==> event_task_id(#[trigger] loops[i].run.events@[k]) == loops[0].run.task_id,
        !(loops[i].phase is NotStarted) ==> loops[i].run.events@[0] == (AgenticEvent::RunStarted {
            task_id: loops[0].run.task_id,
            goal: loops[0].run.config.goal,
        }),
{
    lemma_run_prefix(loops, inputs, actions, i);
}

proof fn lemma_finished_stays(loops: Seq<AgenticLoop>, inputs: Seq<LoopInput>, actions: Seq<LoopAction>, i: int, j: int)
    requires
        is_run(loops, inputs, actions),
        0 <= i <= j <= inputs.len(),
        is_terminal(loops[i].run.status),
    ensures
        loops[j] == loops[i],
    decreases j - i,
{
    if j > i {
        lemma_finished_stays(loops, inputs, actions, i, j - 1);
        assert(stepped(loops[j - 1], inputs[j - 1], loops[j], actions[j - 1]));
    }
}

/// In a run from a fresh loop, a model error while the model is awaited
/// fails the run: the step answers `Done(Err(e))`, the status is `Failed`,
/// the one event added is `RunFailed` with the run's task id and the
/// error, the completion time is set, no event of the run is
/// `RunCompleted`, and every later input is ignored.
pub proof fn lemma_model_error_fails_run(loops: Seq<AgenticLoop>, inputs: Seq<LoopInput>, actions: Seq<LoopAction>, i: int)
    requires
        is_run(loops, inputs, actions),
        fresh(loops[0]),
        0 <= i < inputs.len(),
        inputs[i] is ModelError,
        loops[i].phase is AwaitingModel,
    ensures
        actions[i] == LoopAction::Done(Err(inputs[i]->ModelError_0)),
        loops[i + 1].run.status == RunStatus::Failed,
        loops[i + 1].run.events@ == loops[i].run.events@.push((AgenticEvent::RunFailed {
            task_id: loops[0].run.task_id,
            error: inputs[i]->ModelError_0,
        })),
        loops[i + 1].run.completed_at is Some,
        forall|k: int| 0 <= k < loops[i + 1].run.events@.len() ==> !(#[trigger] loops[i + 1].run.events@[k] is RunCompleted),
        forall|j: int| i + 1 <= j <= inputs.len() ==> #[trigger] loops[j] == loops[i + 1],
{
    lemma_run_prefix(loops, inputs, actions, i);
    assert(stepped(loops[i], inputs[i], loops[i + 1], actions[i]));
    let ev = loops[i].run.events@;
    let after = loops[i + 1].run.events@;
    assert forall|k: int| 0 <= k < after.len() implies !(#[trigger] after[k] is RunCompleted) by {
        if k < ev.len() {
            assert(after[k] == ev[k]);
            assert(!is_end_event(ev[k]));
        }
    }
    assert forall|j: int| i + 1 <= j <= inputs.len() implies #[trigger] loops[j] == loops[i + 1] by {
        lemma_finished_stays(loops, inputs, actions, i + 1, j);
    }
}

/// With confirmation required, a step asks to run a tool call only on the
/// mentor's approval of that very call: a denied (or closed) confirmation
/// never leads to running the call, and neither does any other input.
pub proof fn lemma_execute_needs_approval(before: AgenticLoop, input: LoopInput, after: AgenticLoop, a: LoopAction)
    requires
        before.wf(),
        stepped(before, input, after, a),
        before.run.config.require_confirmation,
        a is Execute,
    ensures
        input == LoopInput::Confirmation(ConfirmReply::Approved),
        before.phase is Tools && !before.phase->confirmed,
        a == LoopAction::Execute(before.phase->calls@[before.phase->next as int]),
{
    match input {
        LoopInput::Start => {
            if before.run.config.max_turns == 0 {
                assert(a == LoopAction::Done(Ok(())));
            }
        },
        LoopInput::Gate { .. } => {},
        LoopInput::ModelError(_) => {},
        LoopInput::ModelReply { content, tool_calls } => {
            if before.phase is AwaitingModel {
                let turn = phase_turn(before.phase) as u32;
                let lower = lowercase(content@);
                match tool_calls {
                    Some(calls) => {
                        if calls@.len() == 0 {
                            assert(a is CheckCancel || a is Done);
                        }
                    },
                    None => {
                        if !contains_any(lower, question_phrases()) && turn < before.run.config.max_turns
                            && !contains_any(lower, completion_phrases()) {
                            assert(a is CheckCancel || a is Done);
                        }
                    },
                }
            }
        },
        LoopInput::Confirmation(reply) => {
            if before.phase is Tools && !before.phase->confirmed {
                let calls = before.phase->calls;
                let next = before.phase->next as int;
                if reply is Denied && next + 1 >= calls@.len() {
                    assert(a is CheckCancel || a is Done);
                }
            }
        },
        LoopInput::ToolResult(_) => {
            if before.phase is Tools && before.phase->confirmed {
                let calls = before.phase->calls;
                let next = before.phase->next as int;
                if next + 1 >= calls@.len() {
                    assert(a is CheckCancel || a is Done);
                }
            }
        },
        LoopInput::Mentor(reply) => {
            if before.phase is AwaitingMentor && reply is Answer {
                assert(a is CheckCancel || a is Done);
            }
        },
    }
}

/// With confirmation required, a model reply that asks for tool calls first
/// asks the mentor about the first call, recording a `ToolConfirmation`
/// event for it; when the mentor denies it, the call is not run: no
/// `ToolExecuted` event follows, the conversation gets the user message
/// saying the tool was denied, and the loop moves on (asking about the next
/// call, going on with the run, or finishing it).
pub proof fn lemma_denied_call_is_not_run(
    l0: AgenticLoop,
    content: String,
    calls: Vec<ToolCallInfo>,
    l1: AgenticLoop,
    a1: LoopAction,
    l2: AgenticLoop,
    a2: LoopAction,
)
    requires
        l0.wf(),
        l0.phase is AwaitingModel,
        l0.run.config.require_confirmation,
        calls@.len() > 0,
        stepped(l0, LoopInput::ModelReply { content, tool_calls: Some(calls) }, l1, a1),
        stepped(l1, LoopInput::Confirmation(ConfirmReply::Denied), l2, a2),
    ensures
        a1 == LoopAction::Confirm(calls@[0]),
        l1.run.status == RunStatus::WaitingForConfirmation,
        l1.run.events@.last() == (AgenticEvent::ToolConfirmation {
            task_id: l0.run.task_id,
            tool_name: calls@[0].name,
            params: calls@[0].arguments,
        }),
        !(a2 is Execute),
        forall|k: int| l1.run.events@.len() <= k < l2.run.events@.len() ==> !(#[trigger] l2.run.events@[k] is ToolExecuted),
        l2.conversation@[l1.conversation@.len() as int].role@ == "user"@,
        l2.conversation@[l1.conversation@.len() as int].content@ == denied_text(calls@[0].name@),
        l2.run.status == RunStatus::Running || a2 == LoopAction::Confirm(calls@[1]) || a2 is Done,
{
    assert(l1.phase == (LoopPhase::Tools { turn: phase_turn(l0.phase) as u32, calls, next: 0, confirmed: false }));
    if a2 is Execute {
        lemma_execute_needs_approval(l1, LoopInput::Confirmation(ConfirmReply::Denied), l2, a2);
    }
    let b = l1.run.events@;
    let conv = l1.conversation@.push(l2.conversation@[l1.conversation@.len() as int]);
    let turn = phase_turn(l0.phase) as u32;
    assert(tools_proceeded(b, conv, l1.run.messages@, l2, a2, turn, calls, 1));
    if 1 < calls@.len() {
        assert(l2.run.events@.len() == b.len() + 1);
    } else {
        let e1 = b.push(AgenticEvent::TurnCompleted { task_id: l2.run.task_id, turn_number: turn });
        if turn < l2.run.config.max_turns {
            assert(l2.run.events@ == e1);
        } else {
            assert(l2.run.events@.drop_last() == e1);
            assert forall|k: int| b.len() <= k < l2.run.events@.len() implies !(#[trigger] l2.run.events@[k] is ToolExecuted) by {
                if k < l2.run.events@.len() - 1 {
                    assert(l2.run.events@[k] == e1[k]);
                }
            }
        }
    }
}

} // verus!
