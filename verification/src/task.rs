//! What a subagent is asked to do.
use vstd::prelude::*;

use crate::depth::SubagentDepthContext;
use crate::role::SubagentRole;

verus! {

/// `std::path::PathBuf` of the standard library, carried through unread.
#[verifier::external_type_specification]
#[verifier::external_body]
pub struct ExPathBuf(std::path::PathBuf);

/// Expected output type from a subagent.
#[derive(Debug, Clone, Copy, PartialEq, Eq, Structural)]
pub enum SubagentOutputType {
    /// Analysis report.
    Report,
    /// Code diff/changes.
    Diff,
    /// Code implementation.
    Code,
    /// Execution plan.
    Plan,
    /// Generic text response.
    Text,
}

impl Default for SubagentOutputType {
    fn default() -> (t: Self)
        ensures
            t == SubagentOutputType::Text,
    {
        SubagentOutputType::Text
    }
}

impl SubagentOutputType {
    /// The output type's name.
    pub open spec fn label(self) -> Seq<char> {
        match self {
            SubagentOutputType::Report => "Report"@,
            SubagentOutputType::Diff => "Diff"@,
            SubagentOutputType::Code => "Code"@,
            SubagentOutputType::Plan => "Plan"@,
            SubagentOutputType::Text => "Text"@,
        }
    }

    /// The output type's name, as it is shown to users and to models.
    pub fn name(&self) -> (s: &'static str)
        ensures
            s@ == self.label(),
    {
        match self {
            SubagentOutputType::Report => "Report",
            SubagentOutputType::Diff => "Diff",
            SubagentOutputType::Code => "Code",
            SubagentOutputType::Plan => "Plan",
            SubagentOutputType::Text => "Text",
        }
    }
}

/// Task specification for a subagent.
#[derive(Debug, Clone)]
pub struct SubagentTask {
    /// Brief overview (one-line context).
    pub overview: String,
    /// Specific, verifiable goal.
    pub goal: String,
    /// Constraints and standards.
    pub requirements: Vec<String>,
    /// Expected output type.
    pub output_type: SubagentOutputType,
    /// Context files and paths.
    pub context_paths: Vec<std::path::PathBuf>,
    /// Additional context or instructions.
    pub additional_context: Option<String>,
}

/// Configuration for spawning a subagent.
#[derive(Debug, Clone)]
pub struct SubagentSpawnConfig {
    /// The role of the subagent.
    pub role: SubagentRole,
    /// Depth context (inherited from parent with incremented current).
    pub depth: SubagentDepthContext,
    /// Task description for the subagent.
    pub task: SubagentTask,
    /// Whether to run in background (non-blocking).
    pub background: bool,
    /// Optional session ID for multi-round fixes.
    pub session_id: Option<String>,
    /// Optional report path for review role.
    pub report_path: Option<std::path::PathBuf>,
    /// Optional plan directory for plan role.
    pub plan_dir: Option<std::path::PathBuf>,
}

} // verus!
