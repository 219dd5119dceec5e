//! Agents as the rest of the library sees them: an identifier and a status.
use vstd::prelude::*;

verus! {

/// Identifier of an agent's thread, held in the form in which it is shown.
#[derive(Debug, PartialEq, Eq)]
pub struct ThreadId {
    pub text: String,
}

impl View for ThreadId {
    type V = Seq<char>;

    open spec fn view(&self) -> Seq<char> {
        self.text@
    }
}

impl Clone for ThreadId {
    fn clone(&self) -> (id: Self)
        ensures
            id == *self,
    {
        ThreadId { text: self.text.clone() }
    }
}

/// What an agent is doing, as far as this library tells states apart.
#[derive(Debug, PartialEq, Eq)]
pub enum AgentStatus {
    /// Finished, with its last message if there was one.
    Completed(Option<String>),
    /// Stopped by an error, with the error's text.
    Errored(String),
    /// Shut down on request.
    Shutdown,
    /// No agent goes by the identifier.
    NotFound,
    /// Any other state, by its name.
    Other(String),
}

/// The mathematical value of an `AgentStatus`.
pub enum AgentStatusView {
    Completed(Option<Seq<char>>),
    Errored(Seq<char>),
    Shutdown,
    NotFound,
    Other(Seq<char>),
}

impl View for AgentStatus {
    type V = AgentStatusView;

    open spec fn view(&self) -> AgentStatusView {
        match self {
            AgentStatus::Completed(message) => AgentStatusView::Completed(message.deep_view()),
            AgentStatus::Errored(error) => AgentStatusView::Errored(error@),
            AgentStatus::Shutdown => AgentStatusView::Shutdown,
            AgentStatus::NotFound => AgentStatusView::NotFound,
            AgentStatus::Other(name) => AgentStatusView::Other(name@),
        }
    }
}

impl Clone for AgentStatus {
    fn clone(&self) -> (status: Self)
        ensures
            status@ == self@,
    {
        match self {
            AgentStatus::Completed(message) => AgentStatus::Completed(copy_text(message)),
            AgentStatus::Errored(error) => AgentStatus::Errored(error.clone()),
            AgentStatus::Shutdown => AgentStatus::Shutdown,
            AgentStatus::NotFound => AgentStatus::NotFound,
            AgentStatus::Other(name) => AgentStatus::Other(name.clone()),
        }
    }
}

/// One reading of an agent's status.
#[derive(Debug, PartialEq, Eq)]
pub struct StatusReport {
    /// The status itself.
    pub status: AgentStatus,
    /// The status in the form in which it is shown to models.
    pub text: String,
    /// Whether the agent will never leave this status.
    pub is_final: bool,
}

/// The mathematical value of a `StatusReport`.
pub struct StatusReportView {
    pub status: AgentStatusView,
    pub text: Seq<char>,
    pub is_final: bool,
}

impl View for StatusReport {
    type V = StatusReportView;

    open spec fn view(&self) -> StatusReportView {
        StatusReportView { status: self.status@, text: self.text@, is_final: self.is_final }
    }
}

impl Clone for StatusReport {
    fn clone(&self) -> (copy: Self)
        ensures
            copy@ == self@,
    {
        StatusReport {
            status: self.status.clone(),
            text: self.text.clone(),
            is_final: self.is_final,
        }
    }
}

/// A copy of optional text.
pub fn copy_text(text: &Option<String>) -> (copy: Option<String>)
    ensures
        copy.deep_view() == text.deep_view(),
{
    match text {
        Some(s) => Some(s.clone()),
        None => None,
    }
}

} // verus!
