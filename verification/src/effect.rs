//! What a tool call asks of its surroundings, and what comes back.
//!
//! A tool call is a sequence of actions. The surroundings perform each action
//! and hand its outcome back, which decides the next action.
use vstd::prelude::*;

use crate::agent::{AgentStatus, AgentStatusView, StatusReport, StatusReportView, ThreadId};
use crate::depth::SubagentDepthContext;
use crate::error::{message, CodexErr, CodexErrView, FunctionCallError, FunctionCallErrorView};
use crate::result::{
    SubagentResult, SubagentResultOutput, SubagentResultOutputView, SubagentResultView,
};
use crate::role::SubagentRole;

verus! {

/// A subagent is about to be spawned.
#[derive(Debug, PartialEq)]
pub struct SubagentSpawnBeginEvent {
    pub call_id: String,
    pub parent_thread_id: ThreadId,
    pub role: SubagentRole,
    pub depth: SubagentDepthContext,
    pub background: bool,
    pub overview: String,
}

/// The mathematical value of a `SubagentSpawnBeginEvent`.
pub struct SpawnBeginView {
    pub call_id: Seq<char>,
    pub parent_thread_id: Seq<char>,
    pub role: SubagentRole,
    pub depth: SubagentDepthContext,
    pub background: bool,
    pub overview: Seq<char>,
}

impl View for SubagentSpawnBeginEvent {
    type V = SpawnBeginView;

    open spec fn view(&self) -> SpawnBeginView {
        SpawnBeginView {
            call_id: self.call_id@,
            parent_thread_id: self.parent_thread_id@,
            role: self.role,
            depth: self.depth,
            background: self.background,
            overview: self.overview@,
        }
    }
}

/// A spawn is over: the subagent runs in the background, has finished, or
/// could not be spawned.
#[derive(Debug, PartialEq)]
pub struct SubagentSpawnEndEvent {
    pub call_id: String,
    pub parent_thread_id: ThreadId,
    pub subagent_thread_id: Option<ThreadId>,
    pub role: SubagentRole,
    pub depth: u8,
    pub background: bool,
    pub status: AgentStatus,
    pub result: Option<SubagentResult>,
}

/// The mathematical value of a `SubagentSpawnEndEvent`.
pub struct SpawnEndView {
    pub call_id: Seq<char>,
    pub parent_thread_id: Seq<char>,
    pub subagent_thread_id: Option<Seq<char>>,
    pub role: SubagentRole,
    pub depth: u8,
    pub background: bool,
    pub status: AgentStatusView,
    pub result: Option<SubagentResultView>,
}

impl View for SubagentSpawnEndEvent {
    type V = SpawnEndView;

    open spec fn view(&self) -> SpawnEndView {
        SpawnEndView {
            call_id: self.call_id@,
            parent_thread_id: self.parent_thread_id@,
            subagent_thread_id: match self.subagent_thread_id {
                Some(id) => Some(id@),
                None => None,
            },
            role: self.role,
            depth: self.depth,
            background: self.background,
            status: self.status@,
            result: match self.result {
                Some(result) => Some(result@),
                None => None,
            },
        }
    }
}

/// A subagent in the background has finished.
#[derive(Debug, PartialEq)]
pub struct SubagentTaskCompleteEvent {
    pub call_id: String,
    pub parent_thread_id: ThreadId,
    pub subagent_thread_id: ThreadId,
    pub result: SubagentResult,
}

/// The mathematical value of a `SubagentTaskCompleteEvent`.
pub struct TaskCompleteView {
    pub call_id: Seq<char>,
    pub parent_thread_id: Seq<char>,
    pub subagent_thread_id: Seq<char>,
    pub result: SubagentResultView,
}

impl View for SubagentTaskCompleteEvent {
    type V = TaskCompleteView;

    open spec fn view(&self) -> TaskCompleteView {
        TaskCompleteView {
            call_id: self.call_id@,
            parent_thread_id: self.parent_thread_id@,
            subagent_thread_id: self.subagent_thread_id@,
            result: self.result@,
        }
    }
}

/// Result returned to the model for spawn_subagent.
#[derive(Debug, PartialEq)]
pub struct SpawnSubagentResult {
    /// Thread ID of the spawned subagent.
    pub agent_id: String,
    /// Whether the task is running in background.
    pub background: bool,
    /// Status of the subagent.
    pub status: String,
    /// Result if completed synchronously.
    pub result: Option<SubagentResultOutput>,
}

/// Result for the get_subagent_status and close_subagent tools.
#[derive(Debug, PartialEq)]
pub struct GetSubagentStatusResult {
    pub status: String,
    pub result: Option<SubagentResultOutput>,
}

/// Result for the wait_subagent tool.
#[derive(Debug, PartialEq)]
pub struct WaitSubagentResult {
    pub status: String,
    pub timed_out: bool,
    pub result: Option<SubagentResultOutput>,
}

/// What a model is told, before it is put into text.
#[derive(Debug, PartialEq)]
pub enum Reply {
    Spawn(SpawnSubagentResult),
    Status(GetSubagentStatusResult),
    Wait(WaitSubagentResult),
}

/// The mathematical value of a `Reply`.
pub enum ReplyView {
    Spawn {
        agent_id: Seq<char>,
        background: bool,
        status: Seq<char>,
        result: Option<SubagentResultOutputView>,
    },
    Status { status: Seq<char>, result: Option<SubagentResultOutputView> },
    Wait {
        status: Seq<char>,
        timed_out: bool,
        result: Option<SubagentResultOutputView>,
    },
}

/// The value of an optional output.
pub open spec fn output_view(output: Option<SubagentResultOutput>) -> Option<
    SubagentResultOutputView,
> {
    match output {
        Some(o) => Some(o@),
        None => None,
    }
}

impl View for Reply {
    type V = ReplyView;

    open spec fn view(&self) -> ReplyView {
        match self {
            Reply::Spawn(r) => ReplyView::Spawn {
                agent_id: r.agent_id@,
                background: r.background,
                status: r.status@,
                result: output_view(r.result),
            },
            Reply::Status(r) => ReplyView::Status {
                status: r.status@,
                result: output_view(r.result),
            },
            Reply::Wait(r) => ReplyView::Wait {
                status: r.status@,
                timed_out: r.timed_out,
                result: output_view(r.result),
            },
        }
    }
}

/// Output of a tool call.
#[derive(Debug, PartialEq, Eq)]
pub enum ToolOutput {
    Function {
        content: String,
        success: Option<bool>,
        /// Structured content beside the text; the subagent tools give none.
        content_items: Option<Vec<String>>,
    },
}

/// How a tool call ends.
pub enum OutcomeView {
    /// With text for the model, and a mark of success or failure.
    Output { content: Seq<char>, success: Option<bool>, content_items: Option<Seq<Seq<char>>> },
    /// With an error.
    Error(FunctionCallErrorView),
}

/// The value of a tool call's end.
pub open spec fn outcome_view(r: Result<ToolOutput, FunctionCallError>) -> OutcomeView {
    match r {
        Ok(ToolOutput::Function { content, success, content_items }) => OutcomeView::Output {
            content: content@,
            success,
            content_items: content_items.deep_view(),
        },
        Err(e) => OutcomeView::Error(e@),
    }
}

/// How a tool call ends once its reply was put into text, or could not be.
pub open spec fn ending(serialized: Result<Seq<char>, Seq<char>>, success: bool) -> OutcomeView {
    match serialized {
        Ok(content) => OutcomeView::Output {
            content,
            success: Some(success),
            content_items: None,
        },
        Err(reason) => OutcomeView::Error(
            FunctionCallErrorView::Fatal("Failed to serialize result: "@ + reason),
        ),
    }
}

/// Something that a tool call asks of its surroundings. `C` is the type of
/// agent configurations.
#[derive(Debug, PartialEq)]
pub enum Action<C> {
    /// Tell listeners that a spawn begins.
    SendBegin(SubagentSpawnBeginEvent),
    /// Try whether the policies of the child's configuration may be set.
    TryPolicies,
    /// Spawn an agent.
    Launch { config: C, prompt: String },
    /// Read an agent's status.
    GetStatus(ThreadId),
    /// Watch an agent in the background.
    StartWatcher {
        call_id: String,
        parent_thread_id: ThreadId,
        agent_id: ThreadId,
        role: SubagentRole,
        depth: u8,
    },
    /// Wait until an agent has finished.
    Wait { agent_id: ThreadId, timeout_ms: u64, role: SubagentRole, depth: u8 },
    /// Tell listeners that a spawn is over.
    SendEnd(SubagentSpawnEndEvent),
    /// Tell listeners that a background task is over.
    SendComplete(SubagentTaskCompleteEvent),
    /// Shut an agent down.
    Shutdown(ThreadId),
    /// Put a reply into text.
    Serialize(Reply),
    /// End the tool call.
    Finish(Result<ToolOutput, FunctionCallError>),
}

/// The mathematical value of an `Action`.
pub enum ActionView<C> {
    SendBegin(SpawnBeginView),
    TryPolicies,
    Launch { config: C, prompt: Seq<char> },
    GetStatus(Seq<char>),
    StartWatcher {
        call_id: Seq<char>,
        parent_thread_id: Seq<char>,
        agent_id: Seq<char>,
        role: SubagentRole,
        depth: u8,
    },
    Wait { agent_id: Seq<char>, timeout_ms: u64, role: SubagentRole, depth: u8 },
    SendEnd(SpawnEndView),
    SendComplete(TaskCompleteView),
    Shutdown(Seq<char>),
    Serialize(ReplyView),
    Finish(OutcomeView),
}

impl<C> View for Action<C> {
    type V = ActionView<C>;

    open spec fn view(&self) -> ActionView<C> {
        match self {
            Action::SendBegin(event) => ActionView::SendBegin(event@),
            Action::TryPolicies => ActionView::TryPolicies,
            Action::Launch { config, prompt } => ActionView::Launch {
                config: *config,
                prompt: prompt@,
            },
            Action::GetStatus(id) => ActionView::GetStatus(id@),
            Action::StartWatcher { call_id, parent_thread_id, agent_id, role, depth } =>
                ActionView::StartWatcher {
                call_id: call_id@,
                parent_thread_id: parent_thread_id@,
                agent_id: agent_id@,
                role: *role,
                depth: *depth,
            },
            Action::Wait { agent_id, timeout_ms, role, depth } => ActionView::Wait {
                agent_id: agent_id@,
                timeout_ms: *timeout_ms,
                role: *role,
                depth: *depth,
            },
            Action::SendEnd(event) => ActionView::SendEnd(event@),
            Action::SendComplete(event) => ActionView::SendComplete(event@),
            Action::Shutdown(id) => ActionView::Shutdown(id@),
            Action::Serialize(reply) => ActionView::Serialize(reply@),
            Action::Finish(r) => ActionView::Finish(outcome_view(*r)),
        }
    }
}

/// What came of an action.
#[derive(Debug, PartialEq)]
pub enum Input {
    /// The event was sent.
    Sent,
    /// Whether the sandbox policy and the approval policy may be set, or why not.
    PoliciesTried { sandbox: Result<(), String>, approval: Result<(), String> },
    /// The agent was spawned, or was not.
    Launched(Result<ThreadId, CodexErr>),
    /// The status that was read.
    Status(StatusReport),
    /// The agent is being watched.
    WatcherStarted,
    /// The agent has finished, or the wait for it has.
    Waited(SubagentResult),
    /// The agent was shut down, or was not.
    ShutDown(Result<(), CodexErr>),
    /// The reply as text, or the reason why there is none.
    Serialized(Result<String, String>),
}

/// The mathematical value of an `Input`.
pub enum InputView {
    Sent,
    PoliciesTried { sandbox: Result<(), Seq<char>>, approval: Result<(), Seq<char>> },
    Launched(Result<Seq<char>, CodexErrView>),
    Status(StatusReportView),
    WatcherStarted,
    Waited(SubagentResultView),
    ShutDown(Result<(), CodexErrView>),
    Serialized(Result<Seq<char>, Seq<char>>),
}

/// The value of a permission or of the reason why there is none.
pub open spec fn permission_view(r: Result<(), String>) -> Result<(), Seq<char>> {
    match r {
        Ok(_) => Ok(()),
        Err(reason) => Err(reason@),
    }
}

/// The value of text or of the reason why there is none.
pub open spec fn serialized_view(r: Result<String, String>) -> Result<Seq<char>, Seq<char>> {
    match r {
        Ok(content) => Ok(content@),
        Err(reason) => Err(reason@),
    }
}

impl View for Input {
    type V = InputView;

    open spec fn view(&self) -> InputView {
        match self {
            Input::Sent => InputView::Sent,
            Input::PoliciesTried { sandbox, approval } => InputView::PoliciesTried {
                sandbox: permission_view(*sandbox),
                approval: permission_view(*approval),
            },
            Input::Launched(Ok(id)) => InputView::Launched(Ok(id@)),
            Input::Launched(Err(e)) => InputView::Launched(Err(e@)),
            Input::Status(report) => InputView::Status(report@),
            Input::WatcherStarted => InputView::WatcherStarted,
            Input::Waited(result) => InputView::Waited(result@),
            Input::ShutDown(Ok(())) => InputView::ShutDown(Ok(())),
            Input::ShutDown(Err(e)) => InputView::ShutDown(Err(e@)),
            Input::Serialized(r) => InputView::Serialized(serialized_view(*r)),
        }
    }
}

/// The value of an optional action.
pub open spec fn action_view<C>(action: Option<Action<C>>) -> Option<ActionView<C>> {
    match action {
        Some(a) => Some(a@),
        None => None,
    }
}

/// An input is of the kind that an action asks for.
pub open spec fn answers<C>(action: ActionView<C>, input: InputView) -> bool {
    match action {
        ActionView::SendBegin(_) => input is Sent,
        ActionView::TryPolicies => input is PoliciesTried,
        ActionView::Launch { .. } => input is Launched,
        ActionView::GetStatus(_) => input is Status,
        ActionView::StartWatcher { .. } => input is WatcherStarted,
        ActionView::Wait { .. } => input is Waited,
        ActionView::SendEnd(_) => input is Sent,
        ActionView::SendComplete(_) => input is Sent,
        ActionView::Shutdown(_) => input is ShutDown,
        ActionView::Serialize(_) => input is Serialized,
        ActionView::Finish(_) => false,
    }
}

/// Ends a tool call whose reply was put into text, or could not be.
pub fn finish(serialized: Result<String, String>, success: bool) -> (r: Result<
    ToolOutput,
    FunctionCallError,
>)
    ensures
        outcome_view(r) == ending(serialized_view(serialized), success),
{
    match serialized {
        Ok(content) => Ok(
            ToolOutput::Function { content, success: Some(success), content_items: None },
        ),
        Err(reason) => Err(
            FunctionCallError::Fatal(
                message("Failed to serialize result: ", reason.as_str()),
            ),
        ),
    }
}

} // verus!
