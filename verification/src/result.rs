//! Results of subagent tasks.
use vstd::prelude::*;
use vstd::string::*;

use crate::agent::{copy_text, ThreadId};
use crate::role::SubagentRole;

verus! {

/// Status of a subagent result.
#[derive(Debug, Clone, Copy, PartialEq, Eq, Structural)]
pub enum SubagentResultStatus {
    /// Task completed successfully.
    Success,
    /// Task completed with warnings.
    Partial,
    /// Task failed.
    Failed,
    /// Task timed out.
    TimedOut,
    /// Task was cancelled.
    Cancelled,
}

impl SubagentResultStatus {
    /// The status's name.
    pub open spec fn label(self) -> Seq<char> {
        match self {
            SubagentResultStatus::Success => "Success"@,
            SubagentResultStatus::Partial => "Partial"@,
            SubagentResultStatus::Failed => "Failed"@,
            SubagentResultStatus::TimedOut => "TimedOut"@,
            SubagentResultStatus::Cancelled => "Cancelled"@,
        }
    }

    /// The status's name, as it is shown to users and to models.
    pub fn name(&self) -> (s: &'static str)
        ensures
            s@ == self.label(),
    {
        match self {
            SubagentResultStatus::Success => "Success",
            SubagentResultStatus::Partial => "Partial",
            SubagentResultStatus::Failed => "Failed",
            SubagentResultStatus::TimedOut => "TimedOut",
            SubagentResultStatus::Cancelled => "Cancelled",
        }
    }
}

/// Result from a completed subagent task.
#[derive(Debug, PartialEq)]
pub struct SubagentResult {
    /// The subagent's thread ID.
    pub agent_id: ThreadId,
    /// The role that was executed.
    pub role: SubagentRole,
    /// Depth at which the subagent ran.
    pub depth: u8,
    /// Result status.
    pub status: SubagentResultStatus,
    /// The output/response from the subagent.
    pub output: Option<String>,
    /// Round number (for multi-round sessions).
    pub round: u32,
}

/// The mathematical value of a `SubagentResult`.
pub struct SubagentResultView {
    pub agent_id: Seq<char>,
    pub role: SubagentRole,
    pub depth: u8,
    pub status: SubagentResultStatus,
    pub output: Option<Seq<char>>,
    pub round: u32,
}

impl View for SubagentResult {
    type V = SubagentResultView;

    open spec fn view(&self) -> SubagentResultView {
        SubagentResultView {
            agent_id: self.agent_id@,
            role: self.role,
            depth: self.depth,
            status: self.status,
            output: self.output.deep_view(),
            round: self.round,
        }
    }
}

impl Clone for SubagentResult {
    fn clone(&self) -> (copy: Self)
        ensures
            copy@ == self@,
    {
        SubagentResult {
            agent_id: self.agent_id.clone(),
            role: self.role,
            depth: self.depth,
            status: self.status,
            output: copy_text(&self.output),
            round: self.round,
        }
    }
}

impl SubagentResult {
    /// Returns whether the result indicates success.
    pub fn is_success(&self) -> (b: bool)
        ensures
            b == (self.status == SubagentResultStatus::Success),
    {
        matches!(self.status, SubagentResultStatus::Success)
    }
}

/// The round of a result that names none.
pub fn default_round() -> (round: u32)
    ensures
        round == 1,
{
    1
}

/// Output portion of a subagent result.
#[derive(Debug, PartialEq, Eq)]
pub struct SubagentResultOutput {
    pub status: String,
    pub output: Option<String>,
    pub round: u32,
}

/// The mathematical value of a `SubagentResultOutput`.
pub struct SubagentResultOutputView {
    pub status: Seq<char>,
    pub output: Option<Seq<char>>,
    pub round: u32,
}

impl View for SubagentResultOutput {
    type V = SubagentResultOutputView;

    open spec fn view(&self) -> SubagentResultOutputView {
        SubagentResultOutputView {
            status: self.status@,
            output: self.output.deep_view(),
            round: self.round,
        }
    }
}

/// What a model is shown of a result: its status by name, its output and its round.
pub open spec fn output_of(r: SubagentResultView) -> SubagentResultOutputView {
    SubagentResultOutputView { status: r.status.label(), output: r.output, round: r.round }
}

impl SubagentResultOutput {
    /// What a model is shown of a result.
    pub fn from(r: SubagentResult) -> (shown: Self)
        ensures
            shown@ == output_of(r@),
    {
        SubagentResultOutput {
            status: r.status.name().to_string(),
            output: r.output,
            round: r.round,
        }
    }
}

} // verus!
