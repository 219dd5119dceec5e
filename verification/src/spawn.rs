//! The tool that spawns subagents.
use vstd::prelude::*;
use vstd::string::*;

use crate::agent::{AgentStatus, AgentStatusView, StatusReport, StatusReportView, ThreadId};
use crate::args::{effective_timeout, SpawnSubagentArgs, SpawnSubagentArgsView};
use crate::config::{
    admit_config, build_subagent_config, policy_verdict, Config, SettingTypes, TurnContext,
};
use crate::depth::{SubagentDepthContext, MAX_SUBAGENT_DEPTH};
use crate::effect::{
    finish, Action, ActionView, Input, InputView, OutcomeView, Reply, ReplyView, SpawnBeginView,
    SpawnEndView, SpawnSubagentResult, SubagentSpawnBeginEvent, SubagentSpawnEndEvent,
};
use crate::error::{
    subagent_spawn_error, CodexErr, CodexErrView, FunctionCallError, FunctionCallErrorView,
};
use crate::prompt::build_subagent_prompt;
use crate::result::{
    SubagentResult, SubagentResultOutput, SubagentResultStatus, SubagentResultView,
};
use crate::role::SubagentRole;
use crate::text;

verus! {

/// A list of roles by name, in brackets.
pub open spec fn role_list(roles: Seq<SubagentRole>) -> Seq<char> {
    "["@ + text::joined(roles.map_values(|role: SubagentRole| role.label()), ", "@) + "]"@
}

/// The answer to a spawn for which there is no room.
pub open spec fn depth_refusal(depth: SubagentDepthContext) -> FunctionCallErrorView {
    FunctionCallErrorView::RespondToModel(
        "Cannot spawn subagent: maximum depth "@ + text::decimal(MAX_SUBAGENT_DEPTH as nat)
            + " reached. Current depth: "@ + text::decimal(depth.current as nat) + "/"@
            + text::decimal(depth.max as nat),
    )
}

/// The answer to a spawn that the parent's role does not allow.
pub open spec fn role_refusal(
    parent: SubagentRole,
    child: SubagentRole,
    depth: u8,
) -> FunctionCallErrorView {
    FunctionCallErrorView::RespondToModel(
        "Role "@ + parent.label() + " cannot spawn "@ + child.label() + " at depth "@
            + text::decimal(depth as nat) + ". Allowed roles: "@ + role_list(
            parent.child_roles(depth),
        ),
    )
}

/// The answer to a spawn without a task.
pub open spec fn task_refusal() -> FunctionCallErrorView {
    FunctionCallErrorView::RespondToModel(
        "Task overview and goal are required and cannot be empty"@,
    )
}

/// The answer to a spawn that is refused; `None` for one that is not. The
/// depth is looked at first, then the roles, then the task.
pub open spec fn refusal(
    depth: SubagentDepthContext,
    parent: SubagentRole,
    args: SpawnSubagentArgsView,
) -> Option<FunctionCallErrorView> {
    if !depth.has_room() {
        Some(depth_refusal(depth))
    } else if !parent.may_spawn(args.role, depth.current) {
        Some(role_refusal(parent, args.role, depth.current))
    } else if text::blank(args.overview) || text::blank(args.goal) {
        Some(task_refusal())
    } else {
        None
    }
}

/// The names of the roles, in order, in brackets.
fn role_list_text(roles: &Vec<SubagentRole>) -> (s: String)
    ensures
        s@ == role_list(roles@),
{
    let ghost labels = roles@.map_values(|role: SubagentRole| role.label());
    let mut names: Vec<String> = Vec::new();
    let mut i: usize = 0;
    while i < roles.len()
        invariant
            0 <= i <= roles.len(),
            labels == roles@.map_values(|role: SubagentRole| role.label()),
            names.deep_view() == labels.take(i as int),
        decreases roles.len() - i,
    {
        let ghost before = names.deep_view();
        names.push(roles[i].name().to_string());
        i = i + 1;
        assert(names.deep_view() =~= before.push(labels[i - 1]));
        assert(labels.take(i as int) =~= labels.take(i - 1).push(labels[i - 1]));
    }
    assert(labels.take(i as int) =~= labels);
    let mut s = "[".to_string();
    s.append(text::join_text(&names, ", ").as_str());
    s.append("]");
    s
}

/// Checks whether an agent of the given depth and role may spawn the subagent
/// that the arguments describe; gives the child's depth.
pub fn check_spawn(
    depth: SubagentDepthContext,
    parent_role: SubagentRole,
    args: &SpawnSubagentArgs,
) -> (r: Result<SubagentDepthContext, FunctionCallError>)
    ensures
        match refusal(depth, parent_role, args@) {
            Some(answer) => r is Err && r->Err_0@ == answer,
            None => r == Ok::<SubagentDepthContext, FunctionCallError>(depth.deeper()),
        },
{
    // Check if spawning is allowed at current depth.
    let child_depth = match depth.child_context() {
        Some(child_depth) => child_depth,
        None => {
            let mut s = "Cannot spawn subagent: maximum depth ".to_string();
            s.append(text::decimal_text(MAX_SUBAGENT_DEPTH).as_str());
            s.append(" reached. Current depth: ");
            s.append(text::decimal_text(depth.current).as_str());
            s.append("/");
            s.append(text::decimal_text(depth.max).as_str());
            return Err(FunctionCallError::RespondToModel(s));
        },
    };

    // Check if the parent role can spawn the requested child role.
    if !parent_role.can_spawn(args.role, depth.current) {
        let mut s = "Role ".to_string();
        s.append(parent_role.name());
        s.append(" cannot spawn ");
        s.append(args.role.name());
        s.append(" at depth ");
        s.append(text::decimal_text(depth.current).as_str());
        s.append(". Allowed roles: ");
        s.append(role_list_text(&parent_role.allowed_child_roles(depth.current)).as_str());
        return Err(FunctionCallError::RespondToModel(s));
    }

    // Validate task overview and goal.
    if text::is_blank(args.overview.as_str()) || text::is_blank(args.goal.as_str()) {
        return Err(
            FunctionCallError::RespondToModel(
                "Task overview and goal are required and cannot be empty".to_string(),
            ),
        );
    }
    Ok(child_depth)
}

/// What a spawn keeps in mind from beginning to end.
#[derive(Debug, PartialEq, Eq)]
pub struct SpawnPlan {
    pub call_id: String,
    pub parent_thread_id: ThreadId,
    pub role: SubagentRole,
    /// The child's depth.
    pub depth: SubagentDepthContext,
    pub background: bool,
    pub timeout_ms: u64,
    pub prompt: String,
}

/// The mathematical value of a `SpawnPlan`.
pub struct SpawnPlanView {
    pub call_id: Seq<char>,
    pub parent_thread_id: Seq<char>,
    pub role: SubagentRole,
    pub depth: SubagentDepthContext,
    pub background: bool,
    pub timeout_ms: u64,
    pub prompt: Seq<char>,
}

impl View for SpawnPlan {
    type V = SpawnPlanView;

    open spec fn view(&self) -> SpawnPlanView {
        SpawnPlanView {
            call_id: self.call_id@,
            parent_thread_id: self.parent_thread_id@,
            role: self.role,
            depth: self.depth,
            background: self.background,
            timeout_ms: self.timeout_ms,
            prompt: self.prompt@,
        }
    }
}

/// Where a spawn stands.
#[derive(Debug, PartialEq)]
pub enum SpawnStage<C> {
    /// The spawn is being announced; the child is to run under the configuration.
    Announcing(C),
    /// The policies of the child's configuration are being tried.
    Configuring(C),
    /// The agent is being spawned.
    Launching,
    /// The agent could not be spawned; the end is being announced.
    Failing(CodexErr),
    /// In the background: the status is being read.
    Checking(ThreadId),
    /// In the background: a watcher is being started.
    Watching(ThreadId, StatusReport),
    /// In the background: the end of the spawn is being announced.
    Reporting(ThreadId, StatusReport),
    /// Synchronously: the agent is being waited for.
    Waiting(ThreadId),
    /// Synchronously: the status is being read after the wait.
    Settling(ThreadId, SubagentResult),
    /// Synchronously: the end is being announced.
    Concluding(ThreadId, StatusReport, SubagentResult),
    /// Synchronously: the agent is being shut down.
    Closing(ThreadId, StatusReport, SubagentResult),
    /// The reply is being put into text; it marks a success or a failure.
    Replying(bool),
    /// The call is over.
    Over,
}

/// The mathematical value of a `SpawnStage`.
pub enum SpawnStageView<C> {
    Announcing(C),
    Configuring(C),
    Launching,
    Failing(CodexErrView),
    Checking(Seq<char>),
    Watching(Seq<char>, StatusReportView),
    Reporting(Seq<char>, StatusReportView),
    Waiting(Seq<char>),
    Settling(Seq<char>, SubagentResultView),
    Concluding(Seq<char>, StatusReportView, SubagentResultView),
    Closing(Seq<char>, StatusReportView, SubagentResultView),
    Replying(bool),
    Over,
}

impl<C> View for SpawnStage<C> {
    type V = SpawnStageView<C>;

    open spec fn view(&self) -> SpawnStageView<C> {
        match self {
            SpawnStage::Announcing(config) => SpawnStageView::Announcing(*config),
            SpawnStage::Configuring(config) => SpawnStageView::Configuring(*config),
            SpawnStage::Launching => SpawnStageView::Launching,
            SpawnStage::Failing(e) => SpawnStageView::Failing(e@),
            SpawnStage::Checking(id) => SpawnStageView::Checking(id@),
            SpawnStage::Watching(id, report) => SpawnStageView::Watching(id@, report@),
            SpawnStage::Reporting(id, report) => SpawnStageView::Reporting(id@, report@),
            SpawnStage::Waiting(id) => SpawnStageView::Waiting(id@),
            SpawnStage::Settling(id, result) => SpawnStageView::Settling(id@, result@),
            SpawnStage::Concluding(id, report, result) => SpawnStageView::Concluding(
                id@,
                report@,
                result@,
            ),
            SpawnStage::Closing(id, report, result) => SpawnStageView::Closing(
                id@,
                report@,
                result@,
            ),
            SpawnStage::Replying(success) => SpawnStageView::Replying(*success),
            SpawnStage::Over => SpawnStageView::Over,
        }
    }
}

impl SpawnPlanView {
    /// The announcement of the spawn of a task with the given overview.
    pub open spec fn begin(self, overview: Seq<char>) -> SpawnBeginView {
        SpawnBeginView {
            call_id: self.call_id,
            parent_thread_id: self.parent_thread_id,
            role: self.role,
            depth: self.depth,
            background: self.background,
            overview,
        }
    }

    /// The announcement of the end of the spawn.
    pub open spec fn end(
        self,
        agent_id: Option<Seq<char>>,
        status: AgentStatusView,
        result: Option<SubagentResultView>,
    ) -> SpawnEndView {
        SpawnEndView {
            call_id: self.call_id,
            parent_thread_id: self.parent_thread_id,
            subagent_thread_id: agent_id,
            role: self.role,
            depth: self.depth.current,
            background: self.background,
            status,
            result,
        }
    }

    /// The request to watch the agent in the background.
    pub open spec fn watch<C>(self, agent_id: Seq<char>) -> ActionView<C> {
        ActionView::StartWatcher {
            call_id: self.call_id,
            parent_thread_id: self.parent_thread_id,
            agent_id,
            role: self.role,
            depth: self.depth.current,
        }
    }

    /// The request to wait for the agent.
    pub open spec fn wait<C>(self, agent_id: Seq<char>) -> ActionView<C> {
        ActionView::Wait {
            agent_id,
            timeout_ms: self.timeout_ms,
            role: self.role,
            depth: self.depth.current,
        }
    }

    /// What a model is shown of an agent in the given status, with the result
    /// of its task where there is one.
    pub open spec fn reply(
        self,
        agent_id: Seq<char>,
        report: StatusReportView,
        result: Option<SubagentResultView>,
    ) -> ReplyView {
        ReplyView::Spawn {
            agent_id,
            background: self.background,
            status: report.text,
            result: match result {
                Some(r) => Some(crate::result::output_of(r)),
                None => None,
            },
        }
    }

    /// What a spawn does at a stage on an input. An input that the stage does
    /// not expect leaves it as it is. How a shutdown went makes no difference.
    pub open spec fn next<C>(self, stage: SpawnStageView<C>, input: InputView) -> (
        SpawnStageView<C>,
        Option<ActionView<C>>,
    ) {
        match (stage, input) {
            (SpawnStageView::Announcing(config), InputView::Sent) => (
                SpawnStageView::Configuring(config),
                Some(ActionView::TryPolicies),
            ),
            (
                SpawnStageView::Configuring(config),
                InputView::PoliciesTried { sandbox, approval },
            ) => match crate::config::policy_refusal(sandbox, approval) {
                Some(answer) => (
                    SpawnStageView::Over,
                    Some(ActionView::Finish(OutcomeView::Error(answer))),
                ),
                None => (
                    SpawnStageView::Launching,
                    Some(ActionView::Launch { config, prompt: self.prompt }),
                ),
            },
            (SpawnStageView::Launching, InputView::Launched(Ok(id))) => if self.background {
                (SpawnStageView::Checking(id), Some(ActionView::GetStatus(id)))
            } else {
                (SpawnStageView::Waiting(id), Some(self.wait(id)))
            },
            (SpawnStageView::Launching, InputView::Launched(Err(e))) => (
                SpawnStageView::Failing(e),
                Some(ActionView::SendEnd(self.end(None, AgentStatusView::NotFound, None))),
            ),
            (SpawnStageView::Failing(e), InputView::Sent) => (
                SpawnStageView::Over,
                Some(ActionView::Finish(OutcomeView::Error(crate::error::spawn_failure(e)))),
            ),
            (SpawnStageView::Checking(id), InputView::Status(report)) => (
                SpawnStageView::Watching(id, report),
                Some(self.watch(id)),
            ),
            (SpawnStageView::Watching(id, report), InputView::WatcherStarted) => (
                SpawnStageView::Reporting(id, report),
                Some(ActionView::SendEnd(self.end(Some(id), report.status, None))),
            ),
            (SpawnStageView::Reporting(id, report), InputView::Sent) => (
                SpawnStageView::Replying(true),
                Some(ActionView::Serialize(self.reply(id, report, None))),
            ),
            (SpawnStageView::Waiting(id), InputView::Waited(result)) => (
                SpawnStageView::Settling(id, result),
                Some(ActionView::GetStatus(id)),
            ),
            (SpawnStageView::Settling(id, result), InputView::Status(report)) => (
                SpawnStageView::Concluding(id, report, result),
                Some(ActionView::SendEnd(self.end(Some(id), report.status, Some(result)))),
            ),
            (SpawnStageView::Concluding(id, report, result), InputView::Sent) => (
                SpawnStageView::Closing(id, report, result),
                Some(ActionView::Shutdown(id)),
            ),
            (SpawnStageView::Closing(id, report, result), InputView::ShutDown(_)) => (
                SpawnStageView::Replying(result.status == SubagentResultStatus::Success),
                Some(ActionView::Serialize(self.reply(id, report, Some(result)))),
            ),
            (SpawnStageView::Replying(success), InputView::Serialized(text)) => (
                SpawnStageView::Over,
                Some(ActionView::Finish(crate::effect::ending(text, success))),
            ),
            _ => (stage, None),
        }
    }
}

/// A spawn_subagent call under way. `C` is the type of agent configurations.
#[derive(Debug, PartialEq)]
pub struct SpawnCall<C> {
    pub plan: SpawnPlan,
    pub stage: SpawnStage<C>,
}

impl SpawnPlan {
    /// The announcement of the end of the spawn.
    fn announce_end(
        &self,
        subagent_thread_id: Option<ThreadId>,
        status: AgentStatus,
        result: Option<SubagentResult>,
    ) -> (event: SubagentSpawnEndEvent)
        ensures
            event@ == self@.end(
                match subagent_thread_id {
                    Some(id) => Some(id@),
                    None => None,
                },
                status@,
                match result {
                    Some(result) => Some(result@),
                    None => None,
                },
            ),
    {
        SubagentSpawnEndEvent {
            call_id: self.call_id.clone(),
            parent_thread_id: self.parent_thread_id.clone(),
            subagent_thread_id,
            role: self.role,
            depth: self.depth.current,
            background: self.background,
            status,
            result,
        }
    }

    /// Takes an input at a stage and says what comes next.
    fn advance<C>(&self, stage: SpawnStage<C>, input: Input) -> (r: (
        SpawnStage<C>,
        Option<Action<C>>,
    ))
        ensures
            (r.0@, crate::effect::action_view(r.1)) == self@.next(stage@, input@),
    {
        match (stage, input) {
            (SpawnStage::Announcing(config), Input::Sent) => (
                SpawnStage::Configuring(config),
                Some(Action::TryPolicies),
            ),
            (SpawnStage::Configuring(config), Input::PoliciesTried { sandbox, approval }) => {
                match admit_config(config, policy_verdict(sandbox, approval)) {
                    Ok(config) => (
                        SpawnStage::Launching,
                        Some(Action::Launch { config, prompt: self.prompt.clone() }),
                    ),
                    Err(e) => (SpawnStage::Over, Some(Action::Finish(Err(e)))),
                }
            },
            (SpawnStage::Launching, Input::Launched(outcome)) => match outcome {
                Ok(id) => {
                    if self.background {
                        // Background mode: reply as soon as the agent is watched.
                        let action = Action::GetStatus(id.clone());
                        (SpawnStage::Checking(id), Some(action))
                    } else {
                        // Synchronous mode: wait for completion.
                        let action = Action::Wait {
                            agent_id: id.clone(),
                            timeout_ms: self.timeout_ms,
                            role: self.role,
                            depth: self.depth.current,
                        };
                        (SpawnStage::Waiting(id), Some(action))
                    }
                },
                Err(e) => {
                    let event = self.announce_end(None, AgentStatus::NotFound, None);
                    (SpawnStage::Failing(e), Some(Action::SendEnd(event)))
                },
            },
            (SpawnStage::Failing(e), Input::Sent) => (
                SpawnStage::Over,
                Some(Action::Finish(Err(subagent_spawn_error(e)))),
            ),
            (SpawnStage::Checking(id), Input::Status(report)) => {
                let action = Action::StartWatcher {
                    call_id: self.call_id.clone(),
                    parent_thread_id: self.parent_thread_id.clone(),
                    agent_id: id.clone(),
                    role: self.role,
                    depth: self.depth.current,
                };
                (SpawnStage::Watching(id, report), Some(action))
            },
            (SpawnStage::Watching(id, report), Input::WatcherStarted) => {
                let event = self.announce_end(Some(id.clone()), report.status.clone(), None);
                (SpawnStage::Reporting(id, report), Some(Action::SendEnd(event)))
            },
            (SpawnStage::Reporting(id, report), Input::Sent) => {
                let reply = SpawnSubagentResult {
                    agent_id: id.text,
                    background: self.background,
                    status: report.text,
                    result: None,
                };
                (SpawnStage::Replying(true), Some(Action::Serialize(Reply::Spawn(reply))))
            },
            (SpawnStage::Waiting(id), Input::Waited(result)) => {
                let action = Action::GetStatus(id.clone());
                (SpawnStage::Settling(id, result), Some(action))
            },
            (SpawnStage::Settling(id, result), Input::Status(report)) => {
                let event = self.announce_end(
                    Some(id.clone()),
                    report.status.clone(),
                    Some(result.clone()),
                );
                (SpawnStage::Concluding(id, report, result), Some(Action::SendEnd(event)))
            },
            (SpawnStage::Concluding(id, report, result), Input::Sent) => {
                // The agent is of no use once its result is there.
                let action = Action::Shutdown(id.clone());
                (SpawnStage::Closing(id, report, result), Some(action))
            },
            (SpawnStage::Closing(id, report, result), Input::ShutDown(_)) => {
                let success = result.is_success();
                let reply = SpawnSubagentResult {
                    agent_id: id.text,
                    background: self.background,
                    status: report.text,
                    result: Some(SubagentResultOutput::from(result)),
                };
                (SpawnStage::Replying(success), Some(Action::Serialize(Reply::Spawn(reply))))
            },
            (SpawnStage::Replying(success), Input::Serialized(text)) => (
                SpawnStage::Over,
                Some(Action::Finish(finish(text, success))),
            ),
            (stage, _) => (stage, None),
        }
    }
}

impl<C> SpawnCall<C> {
    /// The configuration that the child is to run under, until it is launched.
    pub fn config(&self) -> (config: Option<&C>)
        ensures
            config == (match self.stage {
                SpawnStage::Announcing(config) => Some(&config),
                SpawnStage::Configuring(config) => Some(&config),
                _ => None,
            }),
    {
        match &self.stage {
            SpawnStage::Announcing(config) => Some(config),
            SpawnStage::Configuring(config) => Some(config),
            _ => None,
        }
    }

    /// Takes an input and says what to do next, if anything.
    pub fn step(self, input: Input) -> (r: (Self, Option<Action<C>>))
        ensures
            r.0.plan == self.plan,
            (r.0.stage@, crate::effect::action_view(r.1)) == self.plan@.next(self.stage@, input@),
    {
        let SpawnCall { plan, stage } = self;
        let (stage, action) = plan.advance(stage, input);
        (SpawnCall { plan, stage }, action)
    }
}

/// The depth of a turn: that of the main agent where none is noted.
pub open spec fn depth_of(noted: Option<SubagentDepthContext>) -> SubagentDepthContext {
    match noted {
        Some(depth) => depth,
        None => SubagentDepthContext { current: 0, max: MAX_SUBAGENT_DEPTH },
    }
}

/// The role of a turn: general where none is noted.
pub open spec fn role_of(noted: Option<SubagentRole>) -> SubagentRole {
    match noted {
        Some(role) => role,
        None => SubagentRole::General,
    }
}

/// The plan of a spawn that is not refused.
pub open spec fn plan_of(
    call_id: Seq<char>,
    parent_thread_id: Seq<char>,
    depth: SubagentDepthContext,
    args: SpawnSubagentArgsView,
) -> SpawnPlanView {
    SpawnPlanView {
        call_id,
        parent_thread_id,
        role: args.role,
        depth: depth.deeper(),
        background: args.background,
        timeout_ms: crate::args::timeout_for(args.timeout_ms),
        prompt: crate::prompt::prompt_text(args, depth.deeper()),
    }
}

/// Spawn a new subagent for a turn. `read_only_policy` is the sandbox policy
/// that lets an agent read only.
pub fn spawn_subagent<S: SettingTypes>(
    call_id: String,
    parent_thread_id: ThreadId,
    turn: TurnContext<S>,
    read_only_policy: S::SandboxPolicy,
    args: SpawnSubagentArgs,
) -> (r: Result<(SpawnCall<Config<S>>, Action<Config<S>>), FunctionCallError>)
    ensures
        match refusal(depth_of(turn.subagent_depth), role_of(turn.subagent_role), args@) {
            Some(answer) => r is Err && r->Err_0@ == answer,
            None => {
                let depth = depth_of(turn.subagent_depth);
                let plan = plan_of(call_id@, parent_thread_id@, depth, args@);
                let config = crate::config::child_config(turn, args@, depth.deeper(), read_only_policy);
                &&& r is Ok
                &&& r->Ok_0.0.plan@ == plan
                &&& r->Ok_0.0.stage@ == SpawnStageView::Announcing(config)
                &&& r->Ok_0.1@ == ActionView::<Config<S>>::SendBegin(plan.begin(args@.overview))
            },
        },
{
    let parent_depth = match turn.subagent_depth {
        Some(depth) => depth,
        None => SubagentDepthContext::default(),
    };
    let parent_role = turn.subagent_role.unwrap_or(SubagentRole::General);
    let child_depth = match check_spawn(parent_depth, parent_role, &args) {
        Ok(child_depth) => child_depth,
        Err(e) => return Err(e),
    };
    let prompt = build_subagent_prompt(&args, &child_depth);
    let config = build_subagent_config(turn, &args, child_depth, read_only_policy);
    let event = SubagentSpawnBeginEvent {
        call_id: call_id.clone(),
        parent_thread_id: parent_thread_id.clone(),
        role: args.role,
        depth: child_depth,
        background: args.background,
        overview: args.overview,
    };
    let plan = SpawnPlan {
        call_id,
        parent_thread_id,
        role: args.role,
        depth: child_depth,
        background: args.background,
        timeout_ms: effective_timeout(args.timeout_ms),
        prompt,
    };
    Ok((SpawnCall { plan, stage: SpawnStage::Announcing(config) }, Action::SendBegin(event)))
}

} // verus!
