//! Errors: what goes wrong in the agent runtime, and what a tool call answers.
use vstd::prelude::*;
use vstd::string::*;

use crate::agent::ThreadId;

verus! {

/// Why a tool call gives no output.
#[derive(Debug, PartialEq, Eq)]
pub enum FunctionCallError {
    /// The model is told, and may try something else.
    RespondToModel(String),
    /// The turn cannot go on.
    Fatal(String),
}

/// The mathematical value of a `FunctionCallError`.
pub enum FunctionCallErrorView {
    RespondToModel(Seq<char>),
    Fatal(Seq<char>),
}

impl View for FunctionCallError {
    type V = FunctionCallErrorView;

    open spec fn view(&self) -> FunctionCallErrorView {
        match self {
            FunctionCallError::RespondToModel(text) => FunctionCallErrorView::RespondToModel(text@),
            FunctionCallError::Fatal(text) => FunctionCallErrorView::Fatal(text@),
        }
    }
}

/// The failures of the agent runtime that get an answer of their own.
#[derive(Debug, PartialEq, Eq)]
pub enum CodexErrKind {
    /// The runtime has no agent manager.
    UnsupportedOperation,
    /// No thread goes by the identifier.
    ThreadNotFound(ThreadId),
    /// The agent is gone.
    InternalAgentDied,
    /// Every other failure.
    Other,
}

/// The mathematical value of a `CodexErrKind`.
pub enum CodexErrKindView {
    UnsupportedOperation,
    ThreadNotFound(Seq<char>),
    InternalAgentDied,
    Other,
}

impl View for CodexErrKind {
    type V = CodexErrKindView;

    open spec fn view(&self) -> CodexErrKindView {
        match self {
            CodexErrKind::UnsupportedOperation => CodexErrKindView::UnsupportedOperation,
            CodexErrKind::ThreadNotFound(id) => CodexErrKindView::ThreadNotFound(id@),
            CodexErrKind::InternalAgentDied => CodexErrKindView::InternalAgentDied,
            CodexErrKind::Other => CodexErrKindView::Other,
        }
    }
}

/// A failure of the agent runtime.
#[derive(Debug, PartialEq, Eq)]
pub struct CodexErr {
    pub kind: CodexErrKind,
    /// The failure in words.
    pub message: String,
}

/// The mathematical value of a `CodexErr`.
pub struct CodexErrView {
    pub kind: CodexErrKindView,
    pub message: Seq<char>,
}

impl View for CodexErr {
    type V = CodexErrView;

    open spec fn view(&self) -> CodexErrView {
        CodexErrView { kind: self.kind@, message: self.message@ }
    }
}

/// What is answered when an agent could not be spawned.
pub open spec fn spawn_failure(err: CodexErrView) -> FunctionCallErrorView {
    FunctionCallErrorView::RespondToModel(
        if err.kind is UnsupportedOperation {
            "Subagent manager unavailable"@
        } else {
            "Subagent spawn failed: "@ + err.message
        },
    )
}

/// What is answered when an operation on the agent `agent_id` failed.
pub open spec fn operation_failure(agent_id: Seq<char>, err: CodexErrView) -> FunctionCallErrorView {
    FunctionCallErrorView::RespondToModel(
        match err.kind {
            CodexErrKindView::ThreadNotFound(id) => "Subagent with id "@ + id + " not found"@,
            CodexErrKindView::InternalAgentDied => "Subagent with id "@ + agent_id + " is closed"@,
            CodexErrKindView::UnsupportedOperation => "Subagent manager unavailable"@,
            CodexErrKindView::Other => "Subagent operation failed: "@ + err.message,
        },
    )
}

/// What is answered when `id` names no agent, for the given reason.
pub open spec fn bad_agent_id(id: Seq<char>, reason: Seq<char>) -> FunctionCallErrorView {
    FunctionCallErrorView::RespondToModel("Invalid agent id "@ + id + ": "@ + reason)
}

/// `head` followed by `tail`.
pub fn message(head: &str, tail: &str) -> (s: String)
    ensures
        s@ == head@ + tail@,
{
    let mut s = head.to_string();
    s.append(tail);
    s
}

/// The answer when an agent could not be spawned.
pub fn subagent_spawn_error(err: CodexErr) -> (answer: FunctionCallError)
    ensures
        answer@ == spawn_failure(err@),
{
    match err.kind {
        CodexErrKind::UnsupportedOperation => FunctionCallError::RespondToModel(
            "Subagent manager unavailable".to_string(),
        ),
        _ => FunctionCallError::RespondToModel(
            message("Subagent spawn failed: ", err.message.as_str()),
        ),
    }
}

/// The answer when an operation on an agent failed.
pub fn subagent_error(agent_id: &ThreadId, err: CodexErr) -> (answer: FunctionCallError)
    ensures
        answer@ == operation_failure(agent_id@, err@),
{
    let text = match &err.kind {
        CodexErrKind::ThreadNotFound(id) => {
            let mut s = message("Subagent with id ", id.text.as_str());
            s.append(" not found");
            s
        },
        CodexErrKind::InternalAgentDied => {
            let mut s = message("Subagent with id ", agent_id.text.as_str());
            s.append(" is closed");
            s
        },
        CodexErrKind::UnsupportedOperation => "Subagent manager unavailable".to_string(),
        CodexErrKind::Other => message("Subagent operation failed: ", err.message.as_str()),
    };
    FunctionCallError::RespondToModel(text)
}

/// Takes the runtime's reading of the identifier `id`: the thread it names, or
/// the reason why it names none.
pub fn parse_agent_id(id: &str, reading: Result<ThreadId, String>) -> (r: Result<
    ThreadId,
    FunctionCallError,
>)
    ensures
        match reading {
            Ok(thread) => r == Ok::<ThreadId, FunctionCallError>(thread),
            Err(reason) => r is Err && r->Err_0@ == bad_agent_id(id@, reason@),
        },
{
    match reading {
        Ok(thread) => Ok(thread),
        Err(reason) => {
            let mut s = message("Invalid agent id ", id);
            s.append(": ");
            s.append(reason.as_str());
            Err(FunctionCallError::RespondToModel(s))
        },
    }
}

} // verus!
