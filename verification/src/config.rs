//! The configuration that a subagent runs under.
use vstd::prelude::*;

use crate::args::{SpawnSubagentArgs, SpawnSubagentArgsView};
use crate::depth::SubagentDepthContext;
use crate::error::{message, FunctionCallError, FunctionCallErrorView};
use crate::role::SubagentRole;

verus! {

/// The types of the settings that a configuration carries through unread.
pub trait SettingTypes {
    type Model;

    type ModelProvider;

    type ReasoningEffort;

    type ReasoningSummary;

    type DeveloperInstructions;

    type BaseInstructions;

    type CompactPrompt;

    type UserInstructions;

    type ShellEnvironmentPolicy;

    type SandboxExe;

    type WorkingDirectory;

    type SandboxPolicy;

    type ApprovalPolicy;

    /// Every setting that spawning leaves alone.
    type OtherSettings;
}

/// The configuration of an agent.
pub struct Config<S: SettingTypes> {
    pub model: Option<S::Model>,
    pub model_provider: S::ModelProvider,
    pub model_reasoning_effort: S::ReasoningEffort,
    pub model_reasoning_summary: S::ReasoningSummary,
    pub developer_instructions: S::DeveloperInstructions,
    pub base_instructions: S::BaseInstructions,
    pub compact_prompt: S::CompactPrompt,
    pub user_instructions: S::UserInstructions,
    pub shell_environment_policy: S::ShellEnvironmentPolicy,
    pub codex_linux_sandbox_exe: S::SandboxExe,
    pub cwd: S::WorkingDirectory,
    pub subagent_depth: Option<SubagentDepthContext>,
    pub subagent_role: Option<SubagentRole>,
    pub sandbox_policy: S::SandboxPolicy,
    pub approval_policy: S::ApprovalPolicy,
    pub other: S::OtherSettings,
}

/// What the turn that spawns a subagent runs under.
pub struct TurnContext<S: SettingTypes> {
    /// The configuration that the turn's client was made with.
    pub config: Config<S>,
    pub model: S::Model,
    pub model_provider: S::ModelProvider,
    pub model_reasoning_effort: S::ReasoningEffort,
    pub model_reasoning_summary: S::ReasoningSummary,
    pub developer_instructions: S::DeveloperInstructions,
    pub base_instructions: S::BaseInstructions,
    pub compact_prompt: S::CompactPrompt,
    pub user_instructions: S::UserInstructions,
    pub shell_environment_policy: S::ShellEnvironmentPolicy,
    pub codex_linux_sandbox_exe: S::SandboxExe,
    pub cwd: S::WorkingDirectory,
    pub sandbox_policy: S::SandboxPolicy,
    pub approval_policy: S::ApprovalPolicy,
    /// The depth of the turn's agent, if it is a subagent.
    pub subagent_depth: Option<SubagentDepthContext>,
    /// The role of the turn's agent, if it is a subagent.
    pub subagent_role: Option<SubagentRole>,
}

/// The configuration of a child of `turn`: the turn's settings, the child's
/// depth and role, and the read-only sandbox where the role only reads. A
/// report path or a plan directory makes no difference to the sandbox; it
/// reaches the child in its prompt.
pub open spec fn child_config<S: SettingTypes>(
    turn: TurnContext<S>,
    args: SpawnSubagentArgsView,
    child_depth: SubagentDepthContext,
    read_only_policy: S::SandboxPolicy,
) -> Config<S> {
    Config {
        model: Some(turn.model),
        model_provider: turn.model_provider,
        model_reasoning_effort: turn.model_reasoning_effort,
        model_reasoning_summary: turn.model_reasoning_summary,
        developer_instructions: turn.developer_instructions,
        base_instructions: turn.base_instructions,
        compact_prompt: turn.compact_prompt,
        user_instructions: turn.user_instructions,
        shell_environment_policy: turn.shell_environment_policy,
        codex_linux_sandbox_exe: turn.codex_linux_sandbox_exe,
        cwd: turn.cwd,
        subagent_depth: Some(child_depth),
        subagent_role: Some(args.role),
        sandbox_policy: if args.role.read_only() {
            read_only_policy
        } else {
            turn.sandbox_policy
        },
        approval_policy: turn.approval_policy,
        other: turn.config.other,
    }
}

/// Build the config that is asked for a subagent. Whether its two policies
/// may be set is for `admit_config` to take into account.
pub fn build_subagent_config<S: SettingTypes>(
    turn: TurnContext<S>,
    args: &SpawnSubagentArgs,
    child_depth: SubagentDepthContext,
    read_only_policy: S::SandboxPolicy,
) -> (config: Config<S>)
    ensures
        config == child_config(turn, args@, child_depth, read_only_policy),
{
    // Read-only roles get the read-only sandbox.
    let sandbox_policy = if args.role.is_read_only() {
        read_only_policy
    } else {
        turn.sandbox_policy
    };
    Config {
        model: Some(turn.model),
        model_provider: turn.model_provider,
        model_reasoning_effort: turn.model_reasoning_effort,
        model_reasoning_summary: turn.model_reasoning_summary,
        developer_instructions: turn.developer_instructions,
        base_instructions: turn.base_instructions,
        compact_prompt: turn.compact_prompt,
        user_instructions: turn.user_instructions,
        shell_environment_policy: turn.shell_environment_policy,
        codex_linux_sandbox_exe: turn.codex_linux_sandbox_exe,
        cwd: turn.cwd,
        subagent_depth: Some(child_depth),
        subagent_role: Some(args.role),
        sandbox_policy,
        approval_policy: turn.approval_policy,
        other: turn.config.other,
    }
}

/// Whether the constraints on a configuration let its policies be set. A
/// sandbox policy that may not be set decides, whatever the approval policy.
#[derive(Debug)]
pub enum PolicyVerdict {
    /// Both policies are set.
    Accepted,
    /// The sandbox policy may not be set, for the reason given.
    SandboxRejected(String),
    /// The approval policy may not be set, for the reason given.
    ApprovalRejected(String),
}

/// The answer to a spawn, one of whose policies may not be set; `None` where
/// both may. The sandbox policy is looked at first.
pub open spec fn policy_refusal(
    sandbox: Result<(), Seq<char>>,
    approval: Result<(), Seq<char>>,
) -> Option<FunctionCallErrorView> {
    match (sandbox, approval) {
        (Err(reason), _) => Some(
            FunctionCallErrorView::RespondToModel("Invalid sandbox policy: "@ + reason),
        ),
        (Ok(_), Err(reason)) => Some(
            FunctionCallErrorView::RespondToModel("Invalid approval policy: "@ + reason),
        ),
        (Ok(_), Ok(_)) => None,
    }
}

/// What it comes to that the two policies may or may not be set.
pub fn policy_verdict(sandbox: Result<(), String>, approval: Result<(), String>) -> (v:
    PolicyVerdict)
    ensures
        v == (match (sandbox, approval) {
            (Err(reason), _) => PolicyVerdict::SandboxRejected(reason),
            (Ok(_), Err(reason)) => PolicyVerdict::ApprovalRejected(reason),
            (Ok(_), Ok(_)) => PolicyVerdict::Accepted,
        }),
{
    match sandbox {
        Err(reason) => PolicyVerdict::SandboxRejected(reason),
        Ok(_) => match approval {
            Err(reason) => PolicyVerdict::ApprovalRejected(reason),
            Ok(_) => PolicyVerdict::Accepted,
        },
    }
}

/// The config, if its policies could be set; otherwise the answer to the model.
pub fn admit_config<C>(config: C, verdict: PolicyVerdict) -> (r: Result<C, FunctionCallError>)
    ensures
        match verdict {
            PolicyVerdict::Accepted => r == Ok::<C, FunctionCallError>(config),
            PolicyVerdict::SandboxRejected(reason) => r is Err && r->Err_0@
                == FunctionCallErrorView::RespondToModel(
                "Invalid sandbox policy: "@ + reason@,
            ),
            PolicyVerdict::ApprovalRejected(reason) => r is Err && r->Err_0@
                == FunctionCallErrorView::RespondToModel(
                "Invalid approval policy: "@ + reason@,
            ),
        },
{
    match verdict {
        PolicyVerdict::Accepted => Ok(config),
        PolicyVerdict::SandboxRejected(reason) => Err(
            FunctionCallError::RespondToModel(message("Invalid sandbox policy: ", reason.as_str())),
        ),
        PolicyVerdict::ApprovalRejected(reason) => Err(
            FunctionCallError::RespondToModel(
                message("Invalid approval policy: ", reason.as_str()),
            ),
        ),
    }
}

/// A child that only reads gets the read-only sandbox, whether or not a report
/// path or a plan directory is given, and a child that writes gets exactly its
/// parent's; either way approvals are the parent's. So no review agent gets
/// any other sandbox unless a report path is given, no planning agent unless a
/// plan directory is, and no analyst at all.
pub proof fn law_child_permissions<S: SettingTypes>(
    turn: TurnContext<S>,
    args: SpawnSubagentArgsView,
    report_path: Option<Seq<char>>,
    plan_dir: Option<Seq<char>>,
    child_depth: SubagentDepthContext,
    read_only_policy: S::SandboxPolicy,
)
    ensures
        ({
            let with_paths = SpawnSubagentArgsView { report_path, plan_dir, ..args };
            let config = child_config(turn, with_paths, child_depth, read_only_policy);
            &&& args.role != SubagentRole::General ==> config.sandbox_policy == read_only_policy
            &&& args.role == SubagentRole::General ==> config.sandbox_policy
                == turn.sandbox_policy
            &&& config.sandbox_policy != read_only_policy ==> match args.role {
                SubagentRole::General => true,
                SubagentRole::Review => report_path is Some,
                SubagentRole::Plan => plan_dir is Some,
                SubagentRole::Analyse => false,
            }
            &&& config.approval_policy == turn.approval_policy
            &&& config.other == turn.config.other
        }),
{
}

} // verus!
