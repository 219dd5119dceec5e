//! Arguments of the subagent tools.
use vstd::prelude::*;

use crate::role::SubagentRole;
use crate::task::SubagentOutputType;

verus! {

/// Default timeout for waiting on subagent completion (5 minutes).
pub const DEFAULT_SUBAGENT_TIMEOUT_MS: u64 = 300_000;

/// Maximum timeout for subagent tasks (30 minutes).
pub const MAX_SUBAGENT_TIMEOUT_MS: u64 = 1_800_000;

/// Arguments for the spawn_subagent tool. A path is held as the text that
/// displays it.
#[derive(Debug)]
pub struct SpawnSubagentArgs {
    /// Role of the subagent (general, review, analyse, plan).
    pub role: SubagentRole,
    /// Task overview (one-line context).
    pub overview: String,
    /// Specific, verifiable goal for the subagent.
    pub goal: String,
    /// Requirements and constraints.
    pub requirements: Vec<String>,
    /// Expected output type.
    pub output_type: SubagentOutputType,
    /// Context file paths.
    pub context_paths: Vec<String>,
    /// Additional context or instructions.
    pub additional_context: Option<String>,
    /// Whether to run in background (non-blocking).
    pub background: bool,
    /// Timeout in milliseconds (for synchronous execution).
    pub timeout_ms: Option<u64>,
    /// Session ID for multi-round fixes.
    pub session_id: Option<String>,
    /// Report path for review role.
    pub report_path: Option<String>,
    /// Plan directory for plan role.
    pub plan_dir: Option<String>,
}

/// The mathematical value of `SpawnSubagentArgs`.
pub struct SpawnSubagentArgsView {
    pub role: SubagentRole,
    pub overview: Seq<char>,
    pub goal: Seq<char>,
    pub requirements: Seq<Seq<char>>,
    pub output_type: SubagentOutputType,
    pub context_paths: Seq<Seq<char>>,
    pub additional_context: Option<Seq<char>>,
    pub background: bool,
    pub timeout_ms: Option<u64>,
    pub session_id: Option<Seq<char>>,
    pub report_path: Option<Seq<char>>,
    pub plan_dir: Option<Seq<char>>,
}

impl View for SpawnSubagentArgs {
    type V = SpawnSubagentArgsView;

    open spec fn view(&self) -> SpawnSubagentArgsView {
        SpawnSubagentArgsView {
            role: self.role,
            overview: self.overview@,
            goal: self.goal@,
            requirements: self.requirements.deep_view(),
            output_type: self.output_type,
            context_paths: self.context_paths.deep_view(),
            additional_context: self.additional_context.deep_view(),
            background: self.background,
            timeout_ms: self.timeout_ms,
            session_id: self.session_id.deep_view(),
            report_path: self.report_path.deep_view(),
            plan_dir: self.plan_dir.deep_view(),
        }
    }
}

/// Arguments for the get_subagent_status and close_subagent tools.
#[derive(Debug)]
pub struct GetSubagentStatusArgs {
    /// Thread ID of the subagent.
    pub id: String,
}

/// Arguments for the wait_subagent tool.
#[derive(Debug)]
pub struct WaitSubagentArgs {
    /// Thread ID of the subagent.
    pub id: String,
    /// Timeout in milliseconds.
    pub timeout_ms: Option<u64>,
}

/// The time to wait when `requested` was asked for: the default where nothing
/// was asked for, and never more than the maximum.
pub open spec fn timeout_for(requested: Option<u64>) -> u64 {
    match requested {
        Some(ms) => if ms <= MAX_SUBAGENT_TIMEOUT_MS {
            ms
        } else {
            MAX_SUBAGENT_TIMEOUT_MS
        },
        None => DEFAULT_SUBAGENT_TIMEOUT_MS,
    }
}

/// The time to wait, in milliseconds.
pub fn effective_timeout(requested: Option<u64>) -> (ms: u64)
    ensures
        ms == timeout_for(requested),
{
    let wanted: u64 = requested.unwrap_or(DEFAULT_SUBAGENT_TIMEOUT_MS);
    if wanted < MAX_SUBAGENT_TIMEOUT_MS {
        wanted
    } else {
        MAX_SUBAGENT_TIMEOUT_MS
    }
}

/// No wait outlasts the maximum, and a request within it is honoured.
pub proof fn law_timeout_is_capped(requested: Option<u64>)
    ensures
        timeout_for(requested) <= MAX_SUBAGENT_TIMEOUT_MS,
        requested matches Some(ms) ==> timeout_for(requested) <= ms,
        requested matches Some(ms) ==> (timeout_for(requested) == ms <==> ms
            <= MAX_SUBAGENT_TIMEOUT_MS),
{
}

} // verus!
