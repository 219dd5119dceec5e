use subagent::agent::{AgentStatus, StatusReport, ThreadId};
use subagent::args::{
    effective_timeout, GetSubagentStatusArgs, SpawnSubagentArgs, WaitSubagentArgs,
};
use subagent::config::{
    admit_config, build_subagent_config, policy_verdict, Config, PolicyVerdict, SettingTypes,
    TurnContext,
};
use subagent::depth::SubagentDepthContext;
use subagent::effect::{
    Action, GetSubagentStatusResult, Input, Reply, SpawnSubagentResult, SubagentSpawnBeginEvent,
    SubagentSpawnEndEvent, SubagentTaskCompleteEvent, ToolOutput, WaitSubagentResult,
};
use subagent::error::{
    parse_agent_id, subagent_error, subagent_spawn_error, CodexErr, CodexErrKind,
    FunctionCallError,
};
use subagent::handler::{
    start, ParsedCall, SubagentCall, SubagentHandler, ToolInvocation, ToolKind, ToolPayload,
    ToolRun,
};
use subagent::prompt::build_subagent_prompt;
use subagent::result::{SubagentResult, SubagentResultOutput, SubagentResultStatus};
use subagent::role::SubagentRole;
use subagent::spawn::{spawn_subagent, SpawnCall, SpawnStage};
use subagent::task::SubagentOutputType;
use subagent::tools::{close_subagent, get_subagent_status, wait_subagent};
use subagent::wait::{wait_for_subagent_completion, CompletionWait, WaitAction, WaitInput};
use subagent::watch::spawn_background_watcher;

fn id(text: &str) -> ThreadId {
    ThreadId { text: text.to_string() }
}

fn failure(kind: CodexErrKind, message: &str) -> CodexErr {
    CodexErr { kind, message: message.to_string() }
}

fn told(text: &str) -> FunctionCallError {
    FunctionCallError::RespondToModel(text.to_string())
}

fn report(status: AgentStatus, text: &str, is_final: bool) -> StatusReport {
    StatusReport { status, text: text.to_string(), is_final }
}

fn running() -> StatusReport {
    report(AgentStatus::Other("Running".to_string()), "Running", false)
}

fn completed(message: &str) -> StatusReport {
    report(
        AgentStatus::Completed(Some(message.to_string())),
        &format!("Completed(Some({message:?}))"),
        true,
    )
}

fn args() -> SpawnSubagentArgs {
    SpawnSubagentArgs {
        role: SubagentRole::Analyse,
        overview: "Analyze the codebase".to_string(),
        goal: "Identify potential issues".to_string(),
        requirements: vec!["Be thorough".to_string()],
        output_type: SubagentOutputType::Report,
        context_paths: vec![],
        additional_context: None,
        background: false,
        timeout_ms: None,
        session_id: None,
        report_path: None,
        plan_dir: None,
    }
}

fn output(content: &str, success: bool) -> Result<ToolOutput, FunctionCallError> {
    Ok(ToolOutput::Function {
        content: content.to_string(),
        success: Some(success),
        content_items: None,
    })
}

#[test]
fn prompt_format_includes_depth_and_role() {
    let args = SpawnSubagentArgs {
        role: SubagentRole::Analyse,
        overview: "Analyze the codebase".to_string(),
        goal: "Identify potential issues".to_string(),
        requirements: vec!["Be thorough".to_string()],
        output_type: SubagentOutputType::Report,
        context_paths: vec![],
        additional_context: None,
        background: false,
        timeout_ms: None,
        session_id: None,
        report_path: None,
        plan_dir: None,
    };
    let depth = SubagentDepthContext::new(1);

    let prompt = build_subagent_prompt(&args, &depth);

    assert!(prompt.contains("[DEPTH] 1/3"));
    assert!(prompt.contains("[ROLE] Analyse"));
    assert!(prompt.contains("[OVERVIEW] Analyze the codebase"));
    assert!(prompt.contains("**Goal**: Identify potential issues"));
    assert!(prompt.contains("Be thorough"));
    assert!(prompt.contains("Report"));
}

#[test]
fn prompt_of_the_bare_task() {
    let mut args = args();
    args.requirements = vec![];
    assert_eq!(
        build_subagent_prompt(&args, &SubagentDepthContext::new(1)),
        "[DEPTH] 1/3\n[ROLE] Analyse\n[OVERVIEW] Analyze the codebase\n\n## Task\n\
         **Goal**: Identify potential issues\n**Output**: Report\n"
    );
}

#[test]
fn prompt_with_every_field() {
    let mut args = args();
    args.requirements.push("Be brief".to_string());
    args.context_paths = vec!["src/lib.rs".to_string(), "docs".to_string()];
    args.report_path = Some("out/report.md".to_string());
    args.plan_dir = Some("plans".to_string());
    args.session_id = Some("s-7".to_string());
    args.additional_context = Some("Mind the gap.".to_string());
    assert_eq!(
        build_subagent_prompt(&args, &SubagentDepthContext::new(2)),
        "[DEPTH] 2/3\n[ROLE] Analyse\n[OVERVIEW] Analyze the codebase\n\n## Task\n\
         **Goal**: Identify potential issues\n**Requirements**: Be thorough; Be brief\n\
         **Output**: Report\n**Context**: src/lib.rs, docs\n**report_path**: out/report.md\n\
         **plan_dir**: plans\n**SESSION_ID**: s-7\n\nMind the gap.\n"
    );
}

#[test]
fn timeouts() {
    assert_eq!(effective_timeout(None), 300_000);
    assert_eq!(effective_timeout(Some(0)), 0);
    assert_eq!(effective_timeout(Some(1_800_000)), 1_800_000);
    assert_eq!(effective_timeout(Some(1_800_001)), 1_800_000);
    assert_eq!(effective_timeout(Some(u64::MAX)), 1_800_000);
}

#[test]
fn spawn_errors() {
    assert_eq!(
        subagent_spawn_error(failure(CodexErrKind::UnsupportedOperation, "no")),
        told("Subagent manager unavailable")
    );
    assert_eq!(
        subagent_spawn_error(failure(CodexErrKind::Other, "disk full")),
        told("Subagent spawn failed: disk full")
    );
    assert_eq!(
        subagent_spawn_error(failure(CodexErrKind::ThreadNotFound(id("x")), "no thread x")),
        told("Subagent spawn failed: no thread x")
    );
    assert_eq!(
        subagent_spawn_error(failure(CodexErrKind::InternalAgentDied, "died")),
        told("Subagent spawn failed: died")
    );
}

#[test]
fn operation_errors() {
    let agent = id("a-1");
    assert_eq!(
        subagent_error(&agent, failure(CodexErrKind::ThreadNotFound(id("b-2")), "m")),
        told("Subagent with id b-2 not found")
    );
    assert_eq!(
        subagent_error(&agent, failure(CodexErrKind::InternalAgentDied, "m")),
        told("Subagent with id a-1 is closed")
    );
    assert_eq!(
        subagent_error(&agent, failure(CodexErrKind::UnsupportedOperation, "m")),
        told("Subagent manager unavailable")
    );
    assert_eq!(
        subagent_error(&agent, failure(CodexErrKind::Other, "m")),
        told("Subagent operation failed: m")
    );
}

#[test]
fn agent_ids() {
    assert_eq!(parse_agent_id("a-1", Ok(id("a-1"))), Ok(id("a-1")));
    assert_eq!(
        parse_agent_id("zz", Err("TooShort".to_string())),
        Err(told("Invalid agent id zz: TooShort"))
    );
}

fn call(name: &str, payload: ToolPayload) -> Result<SubagentCall, FunctionCallError> {
    SubagentHandler.handle(ToolInvocation { tool_name: name.to_string(), payload })
}

fn function() -> ToolPayload {
    ToolPayload::Function { arguments: "{}".to_string() }
}

#[test]
fn handler_routes_by_name() {
    let text = "{}".to_string();
    assert_eq!(call("spawn_subagent", function()), Ok(SubagentCall::Spawn(text.clone())));
    assert_eq!(
        call("get_subagent_status", function()),
        Ok(SubagentCall::GetStatus(text.clone()))
    );
    assert_eq!(call("wait_subagent", function()), Ok(SubagentCall::Wait(text.clone())));
    assert_eq!(call("close_subagent", function()), Ok(SubagentCall::Close(text)));
    assert_eq!(call("shell", function()), Err(told("unsupported subagent tool: shell")));
    assert_eq!(
        call("spawn_subagent", ToolPayload::Other),
        Err(told("subagent handler received unsupported payload"))
    );
}

#[test]
fn handler_takes_functions_only() {
    assert_eq!(SubagentHandler.kind(), ToolKind::Function);
    assert!(SubagentHandler.matches_kind(&function()));
    assert!(!SubagentHandler.matches_kind(&ToolPayload::Other));
}

type Started = (SpawnCall<Config<Plain>>, Action<Config<Plain>>);

fn spawn(
    depth: Option<SubagentDepthContext>,
    role: Option<SubagentRole>,
    args: SpawnSubagentArgs,
) -> Result<Started, FunctionCallError> {
    let mut turn = turn();
    turn.subagent_depth = depth;
    turn.subagent_role = role;
    spawn_subagent("call-1".to_string(), id("parent"), turn, "read-only", args)
}

#[test]
fn spawn_is_refused_at_the_depth_limit() {
    let refused = spawn(Some(SubagentDepthContext::new(3)), None, args());
    assert_eq!(
        refused.err(),
        Some(told("Cannot spawn subagent: maximum depth 3 reached. Current depth: 3/3"))
    );
    // The depth is looked at before the roles and the task.
    let mut blank = args();
    blank.goal = " ".to_string();
    let refused = spawn(
        Some(SubagentDepthContext::with_max(1, 1)),
        Some(SubagentRole::Plan),
        blank,
    );
    assert_eq!(
        refused.err(),
        Some(told("Cannot spawn subagent: maximum depth 3 reached. Current depth: 1/1"))
    );
}

#[test]
fn a_line_of_agents_ends_at_the_depth_limit() {
    let mut depth = None;
    let mut role = None;
    for (wanted, current) in [
        (SubagentRole::General, 1),
        (SubagentRole::General, 2),
        (SubagentRole::Analyse, 3),
    ] {
        let mut child = args();
        child.role = wanted;
        let (call, _) = spawn(depth, role, child).expect("room for a child");
        assert_eq!(call.plan.depth, SubagentDepthContext { current, max: 3 });
        assert_eq!(call.plan.role, wanted);
        depth = Some(call.plan.depth);
        role = Some(call.plan.role);
    }
    assert!(spawn(depth, role, args()).is_err());
}

#[test]
fn behind_an_agent_that_only_reads_stands_an_analyst() {
    for wanted in [SubagentRole::General, SubagentRole::Review, SubagentRole::Plan] {
        let mut child = args();
        child.role = wanted;
        assert!(spawn(None, Some(SubagentRole::Plan), child).is_err());
    }
    assert!(spawn(None, Some(SubagentRole::Plan), args()).is_ok());
}

#[test]
fn spawn_is_refused_by_role() {
    let mut wanted = args();
    wanted.role = SubagentRole::General;
    assert_eq!(
        spawn(Some(SubagentDepthContext::new(1)), Some(SubagentRole::Review), wanted).err(),
        Some(told(
            "Role Review cannot spawn General at depth 1. Allowed roles: [Analyse]"
        ))
    );
    let mut wanted = args();
    wanted.role = SubagentRole::Plan;
    wanted.overview = "".to_string();
    assert_eq!(
        spawn(Some(SubagentDepthContext::new(2)), None, wanted).err(),
        Some(told(
            "Role General cannot spawn Plan at depth 2. Allowed roles: [Analyse]"
        ))
    );
}

#[test]
fn spawn_is_refused_without_a_task() {
    for (overview, goal) in [("", "g"), ("o", "\u{3000}\n"), (" ", "\t")] {
        let mut blank = args();
        blank.overview = overview.to_string();
        blank.goal = goal.to_string();
        assert_eq!(
            spawn(None, None, blank).err(),
            Some(told("Task overview and goal are required and cannot be empty"))
        );
    }
}

/// Starts a spawn, and brings it to the launch of its agent.
fn launching(args: SpawnSubagentArgs) -> SpawnCall<&'static str> {
    let role = args.role;
    let child = SubagentDepthContext { current: 1, max: 3 };
    let begin = SubagentSpawnBeginEvent {
        call_id: "call-1".to_string(),
        parent_thread_id: id("parent"),
        role,
        depth: child,
        background: args.background,
        overview: args.overview.clone(),
    };
    let expected_prompt = build_subagent_prompt(&args, &child);
    let (call, action) = spawn(None, None, args).expect("nothing to refuse");
    assert!(matches!(action, Action::SendBegin(event) if event == begin));
    let (call, action) = call.step(Input::Sent);
    assert!(matches!(action, Some(Action::TryPolicies)));
    let pending = ToolRun::Spawn(call);
    let config = pending.config().expect("not launched yet");
    assert_eq!(config.sandbox_policy, "read-only");
    assert_eq!(config.approval_policy, "approval");
    let (call, action) = pending.step(Input::PoliciesTried { sandbox: Ok(()), approval: Ok(()) });
    match action {
        Some(Action::Launch { config, prompt }) => {
            assert_eq!(config.subagent_depth, Some(child));
            assert_eq!(config.subagent_role, Some(role));
            assert_eq!(config.sandbox_policy, "read-only");
            assert_eq!(config.model, Some("model"));
            assert_eq!(prompt, expected_prompt);
        }
        _ => panic!("no launch"),
    }
    match call {
        ToolRun::Spawn(call) => {
            assert!(call.config().is_none());
            assert!(matches!(call.stage, SpawnStage::Launching));
            SpawnCall { plan: call.plan, stage: SpawnStage::Launching }
        }
        _ => panic!("another tool"),
    }
}

fn end_event(
    agent: Option<ThreadId>,
    background: bool,
    status: AgentStatus,
    result: Option<SubagentResult>,
) -> Action<&'static str> {
    Action::SendEnd(SubagentSpawnEndEvent {
        call_id: "call-1".to_string(),
        parent_thread_id: id("parent"),
        subagent_thread_id: agent,
        role: SubagentRole::Analyse,
        depth: 1,
        background,
        status,
        result,
    })
}

fn task_result(status: SubagentResultStatus, text: Option<&str>) -> SubagentResult {
    SubagentResult {
        agent_id: id("child"),
        role: SubagentRole::Analyse,
        depth: 1,
        status,
        output: text.map(|t| t.to_string()),
        round: 1,
    }
}

#[test]
fn synchronous_spawn_waits_reports_and_closes() {
    for (status, success) in [
        (SubagentResultStatus::Success, true),
        (SubagentResultStatus::TimedOut, false),
    ] {
        let mut wanted = args();
        wanted.timeout_ms = Some(5_000);
        let call = ToolRun::Spawn(launching(wanted));
        let (call, action) = call.step(Input::Launched(Ok(id("child"))));
        assert_eq!(
            action,
            Some(Action::<&str>::Wait {
                agent_id: id("child"),
                timeout_ms: 5_000,
                role: SubagentRole::Analyse,
                depth: 1,
            })
        );
        let result = task_result(status, Some("found"));
        let (call, action) = call.step(Input::Waited(result.clone()));
        assert_eq!(action, Some(Action::<&str>::GetStatus(id("child"))));
        let (call, action) = call.step(Input::Status(completed("found")));
        let ended = AgentStatus::Completed(Some("found".to_string()));
        assert_eq!(action, Some(end_event(Some(id("child")), false, ended, Some(result))));
        let (call, action) = call.step(Input::Sent);
        assert_eq!(action, Some(Action::<&str>::Shutdown(id("child"))));
        // That the agent cannot be shut down makes no difference.
        let gone = failure(CodexErrKind::InternalAgentDied, "died");
        let (call, action) = call.step(Input::ShutDown(Err(gone)));
        assert_eq!(
            action,
            Some(Action::<&str>::Serialize(Reply::Spawn(SpawnSubagentResult {
                agent_id: "child".to_string(),
                background: false,
                status: "Completed(Some(\"found\"))".to_string(),
                result: Some(SubagentResultOutput {
                    status: status.name().to_string(),
                    output: Some("found".to_string()),
                    round: 1,
                }),
            })))
        );
        let (call, action) = call.step(Input::Serialized(Ok("{..}".to_string())));
        assert_eq!(action, Some(Action::<&str>::Finish(output("{..}", success))));
        let (_, action) = call.step(Input::Sent);
        assert_eq!(action, None);
    }
}

#[test]
fn background_spawn_is_watched_and_replies_at_once() {
    let mut wanted = args();
    wanted.background = true;
    let call = launching(wanted);
    let (call, action) = call.step(Input::Launched(Ok(id("child"))));
    assert_eq!(action, Some(Action::<&str>::GetStatus(id("child"))));
    let (call, action) = call.step(Input::Status(running()));
    assert_eq!(
        action,
        Some(Action::<&str>::StartWatcher {
            call_id: "call-1".to_string(),
            parent_thread_id: id("parent"),
            agent_id: id("child"),
            role: SubagentRole::Analyse,
            depth: 1,
        })
    );
    let (call, action) = call.step(Input::WatcherStarted);
    let status = AgentStatus::Other("Running".to_string());
    assert_eq!(action, Some(end_event(Some(id("child")), true, status, None)));
    let (call, action) = call.step(Input::Sent);
    assert_eq!(
        action,
        Some(Action::<&str>::Serialize(Reply::Spawn(SpawnSubagentResult {
            agent_id: "child".to_string(),
            background: true,
            status: "Running".to_string(),
            result: None,
        })))
    );
    let (_, action) = call.step(Input::Serialized(Err("no memory".to_string())));
    assert_eq!(
        action,
        Some(Action::<&str>::Finish(Err(FunctionCallError::Fatal(
            "Failed to serialize result: no memory".to_string()
        ))))
    );
}

#[test]
fn failed_launch_is_reported() {
    let call = launching(args());
    let (call, action) = call.step(Input::Launched(Err(failure(CodexErrKind::Other, "full"))));
    assert_eq!(action, Some(end_event(None, false, AgentStatus::NotFound, None)));
    let (_, action) = call.step(Input::Sent);
    assert_eq!(
        action,
        Some(Action::<&str>::Finish(Err(told("Subagent spawn failed: full"))))
    );
}

#[test]
fn refused_policies_end_the_spawn() {
    let refused = |sandbox: Result<(), String>, approval: Result<(), String>| {
        let (call, _) = spawn(None, None, args()).expect("nothing to refuse");
        let (call, _) = call.step(Input::Sent);
        match call.step(Input::PoliciesTried { sandbox, approval }).1 {
            Some(Action::Finish(Err(answer))) => answer,
            _ => panic!("not refused"),
        }
    };
    let wide = || Err("too wide".to_string());
    let never = || Err("never".to_string());
    assert_eq!(refused(wide(), Ok(())), told("Invalid sandbox policy: too wide"));
    assert_eq!(refused(Ok(()), never()), told("Invalid approval policy: never"));
    // The sandbox policy is looked at first.
    assert_eq!(refused(wide(), never()), told("Invalid sandbox policy: too wide"));
}

#[test]
fn unexpected_inputs_change_nothing() {
    let begun = || {
        let (call, _) = spawn(None, None, args()).expect("nothing to refuse");
        SpawnCall { plan: call.plan, stage: SpawnStage::Announcing("config") }
    };
    let (call, action) = begun().step(Input::WatcherStarted);
    assert_eq!(action, None);
    assert_eq!(call, begun());
}

#[test]
fn status_call() {
    let wanted = || GetSubagentStatusArgs { id: "child".to_string() };
    let (call, action) =
        get_subagent_status::<()>(wanted(), Ok(id("child"))).expect("a good identifier");
    assert_eq!(action, Action::GetStatus(id("child")));
    let (call, action) = ToolRun::<()>::GetStatus(call).step(Input::Status(completed("done")));
    assert_eq!(
        action,
        Some(Action::<()>::Serialize(Reply::Status(GetSubagentStatusResult {
            status: "Completed(Some(\"done\"))".to_string(),
            result: Some(SubagentResultOutput {
                status: "success".to_string(),
                output: Some("done".to_string()),
                round: 1,
            }),
        })))
    );
    let (_, action) = call.step(Input::Serialized(Ok("{}".to_string())));
    assert_eq!(action, Some(Action::<()>::Finish(output("{}", true))));

    let (call, _) =
        get_subagent_status::<()>(wanted(), Ok(id("child"))).expect("a good identifier");
    let (_, action) = call.step(Input::Status(running()));
    assert_eq!(
        action,
        Some(Action::<()>::Serialize(Reply::Status(GetSubagentStatusResult {
            status: "Running".to_string(),
            result: None,
        })))
    );

    let refused = get_subagent_status::<()>(wanted(), Err("Bad".to_string()));
    assert_eq!(refused, Err(told("Invalid agent id child: Bad")));
}

#[test]
fn wait_call() {
    for (status, timed_out, success) in [
        (SubagentResultStatus::Success, false, true),
        (SubagentResultStatus::TimedOut, true, false),
        (SubagentResultStatus::Failed, false, false),
    ] {
        let wanted = WaitSubagentArgs { id: "child".to_string(), timeout_ms: None };
        let (call, action) =
            wait_subagent::<()>(wanted, Ok(id("child"))).expect("a good identifier");
        assert_eq!(
            action,
            Action::Wait {
                agent_id: id("child"),
                timeout_ms: 300_000,
                role: SubagentRole::General,
                depth: 1,
            }
        );
        let (call, action) = ToolRun::<()>::Wait(call).step(Input::Waited(task_result(status, None)));
        assert_eq!(
            action,
            Some(Action::<()>::Serialize(Reply::Wait(WaitSubagentResult {
                status: status.name().to_string(),
                timed_out,
                result: Some(SubagentResultOutput {
                    status: status.name().to_string(),
                    output: None,
                    round: 1,
                }),
            })))
        );
        let (_, action) = call.step(Input::Serialized(Ok("{}".to_string())));
        assert_eq!(action, Some(Action::<()>::Finish(output("{}", success))));
    }
    let wanted = WaitSubagentArgs { id: "?".to_string(), timeout_ms: None };
    assert_eq!(
        wait_subagent::<()>(wanted, Err("Bad".to_string())),
        Err(told("Invalid agent id ?: Bad"))
    );
}

fn closed() -> Option<Action<()>> {
    Some(Action::Serialize(Reply::Status(GetSubagentStatusResult {
        status: "shutdown".to_string(),
        result: None,
    })))
}

#[test]
fn close_call() {
    let start = || {
        let wanted = GetSubagentStatusArgs { id: "child".to_string() };
        let (call, action) =
            close_subagent::<()>(wanted, Ok(id("child"))).expect("a good identifier");
        assert_eq!(action, Action::GetStatus(id("child")));
        ToolRun::<()>::Close(call)
    };

    // An agent that runs is shut down.
    let (call, action) = start().step(Input::Status(running()));
    assert_eq!(action, Some(Action::<()>::Shutdown(id("child"))));
    let (call, action) = call.step(Input::ShutDown(Ok(())));
    assert_eq!(action, closed());
    let (_, action) = call.step(Input::Serialized(Ok("{}".to_string())));
    assert_eq!(action, Some(Action::<()>::Finish(output("{}", true))));

    // An agent that is shut down already is left alone.
    let (_, action) = start().step(Input::Status(report(AgentStatus::Shutdown, "Shutdown", true)));
    assert_eq!(action, closed());

    // A failure is the answer.
    let (call, _) = start().step(Input::Status(running()));
    let died = failure(CodexErrKind::InternalAgentDied, "died");
    let (_, action) = call.step(Input::ShutDown(Err(died)));
    assert_eq!(
        action,
        Some(Action::<()>::Finish(Err(told("Subagent with id child is closed"))))
    );

    let wanted = GetSubagentStatusArgs { id: "?".to_string() };
    assert_eq!(
        close_subagent::<()>(wanted, Err("Bad".to_string())),
        Err(told("Invalid agent id ?: Bad"))
    );
}

#[test]
fn watcher_announces_and_closes() {
    let (watcher, action) = spawn_background_watcher::<()>(
        "call-1".to_string(),
        id("parent"),
        id("child"),
        SubagentRole::Analyse,
        2,
    );
    assert_eq!(
        action,
        Action::Wait {
            agent_id: id("child"),
            timeout_ms: 1_800_000,
            role: SubagentRole::Analyse,
            depth: 2,
        }
    );
    let result = task_result(SubagentResultStatus::Failed, None);
    let (watcher, action) = watcher.step::<()>(Input::Waited(result.clone()));
    assert_eq!(
        action,
        Some(Action::<()>::SendComplete(SubagentTaskCompleteEvent {
            call_id: "call-1".to_string(),
            parent_thread_id: id("parent"),
            subagent_thread_id: id("child"),
            result,
        }))
    );
    let (watcher, action) = watcher.step::<()>(Input::Sent);
    assert_eq!(action, Some(Action::<()>::Shutdown(id("child"))));
    let (watcher, action) = watcher.step::<()>(Input::ShutDown(Ok(())));
    assert_eq!(action, None);
    let (_, action) = watcher.step::<()>(Input::Sent);
    assert_eq!(action, None);
}

fn started(call: ParsedCall) -> Result<(ToolRun<Config<Plain>>, Action<Config<Plain>>), FunctionCallError>
{
    start(call, "call-1".to_string(), id("parent"), turn(), "read-only")
}

#[test]
fn every_tool_starts_its_own_call() {
    let by_id = || GetSubagentStatusArgs { id: "child".to_string() };
    let wait = || WaitSubagentArgs { id: "child".to_string(), timeout_ms: Some(7) };

    let (run, action) = started(ParsedCall::Spawn(args())).expect("nothing to refuse");
    assert!(matches!(run, ToolRun::Spawn(_)));
    assert!(matches!(action, Action::SendBegin(_)));

    let (run, action) =
        started(ParsedCall::GetStatus(by_id(), Ok(id("child")))).expect("a good identifier");
    assert!(matches!(run, ToolRun::GetStatus(_)));
    assert!(matches!(action, Action::GetStatus(agent) if agent == id("child")));

    let (run, action) =
        started(ParsedCall::Wait(wait(), Ok(id("child")))).expect("a good identifier");
    assert!(matches!(run, ToolRun::Wait(_)));
    assert!(matches!(action, Action::Wait { timeout_ms: 7, depth: 1, .. }));

    let (run, action) =
        started(ParsedCall::Close(by_id(), Ok(id("child")))).expect("a good identifier");
    assert!(matches!(run, ToolRun::Close(_)));
    assert!(matches!(action, Action::GetStatus(agent) if agent == id("child")));

    let bad = || Err("Bad".to_string());
    for call in [
        ParsedCall::GetStatus(by_id(), bad()),
        ParsedCall::Wait(wait(), bad()),
        ParsedCall::Close(by_id(), bad()),
    ] {
        assert_eq!(started(call).err(), Some(told("Invalid agent id child: Bad")));
    }
    let mut blank = args();
    blank.goal = "".to_string();
    assert_eq!(
        started(ParsedCall::Spawn(blank)).err(),
        Some(told("Task overview and goal are required and cannot be empty"))
    );
}

/// A wait that is about to read the status for the first time.
fn reading() -> CompletionWait {
    let (wait, action) =
        wait_for_subagent_completion(id("child"), 250, SubagentRole::Analyse, 1);
    assert_eq!(action, WaitAction::Subscribe(id("child")));
    let (wait, action) = wait.step(WaitInput::Subscribed);
    assert_eq!(action, Some(WaitAction::SetDeadline(250)));
    let (wait, action) = wait.step(WaitInput::DeadlineSet);
    assert_eq!(action, Some(WaitAction::ReadStatus));
    wait
}

fn returned(status: SubagentResultStatus, text: Option<&str>) -> Option<WaitAction> {
    Some(WaitAction::Return(task_result(status, text)))
}

#[test]
fn wait_returns_the_final_status() {
    for (seen, status, text) in [
        (completed("done"), SubagentResultStatus::Success, Some("done")),
        (
            report(AgentStatus::Completed(None), "Completed(None)", true),
            SubagentResultStatus::Success,
            None,
        ),
        (
            report(AgentStatus::Errored("oops".to_string()), "Errored(\"oops\")", true),
            SubagentResultStatus::Failed,
            Some("oops"),
        ),
        (
            report(AgentStatus::Shutdown, "Shutdown", true),
            SubagentResultStatus::Cancelled,
            None,
        ),
        (
            report(AgentStatus::NotFound, "NotFound", true),
            SubagentResultStatus::Failed,
            None,
        ),
    ] {
        let (_, action) = reading().step(WaitInput::Status(seen));
        assert_eq!(action, returned(status, text));
    }
}

#[test]
fn wait_is_patient() {
    let mut wait = reading();
    for _ in 0..5 {
        let (sleeping, action) = wait.step(WaitInput::Status(running()));
        assert_eq!(action, Some(WaitAction::AwaitChange));
        let (awake, action) = sleeping.step(WaitInput::Changed);
        assert_eq!(action, Some(WaitAction::ReadStatus));
        wait = awake;
    }
    let (wait, action) = wait.step(WaitInput::Status(completed("done")));
    assert_eq!(action, returned(SubagentResultStatus::Success, Some("done")));
    let (_, action) = wait.step(WaitInput::DeadlinePassed);
    assert_eq!(action, None);
}

#[test]
fn wait_ends_early() {
    let (wait, _) = wait_for_subagent_completion(id("child"), 1, SubagentRole::Analyse, 1);
    let (_, action) = wait.step(WaitInput::SubscribeFailed);
    assert_eq!(
        action,
        returned(
            SubagentResultStatus::Failed,
            Some("Failed to subscribe to subagent status")
        )
    );
    let (wait, _) = reading().step(WaitInput::Status(running()));
    let (_, action) = wait.step(WaitInput::ChannelClosed);
    assert_eq!(
        action,
        returned(
            SubagentResultStatus::Failed,
            Some("Subagent channel closed unexpectedly")
        )
    );
    let (wait, _) = reading().step(WaitInput::Status(running()));
    let (_, action) = wait.step(WaitInput::DeadlinePassed);
    assert_eq!(action, returned(SubagentResultStatus::TimedOut, None));
}

struct Plain;

impl SettingTypes for Plain {
    type Model = &'static str;
    type ModelProvider = &'static str;
    type ReasoningEffort = Option<u8>;
    type ReasoningSummary = u8;
    type DeveloperInstructions = Option<&'static str>;
    type BaseInstructions = Option<&'static str>;
    type CompactPrompt = Option<&'static str>;
    type UserInstructions = Option<&'static str>;
    type ShellEnvironmentPolicy = &'static str;
    type SandboxExe = Option<&'static str>;
    type WorkingDirectory = &'static str;
    type SandboxPolicy = &'static str;
    type ApprovalPolicy = &'static str;
    type OtherSettings = u32;
}

fn turn() -> TurnContext<Plain> {
    TurnContext {
        config: Config {
            model: None,
            model_provider: "old provider",
            model_reasoning_effort: None,
            model_reasoning_summary: 0,
            developer_instructions: None,
            base_instructions: None,
            compact_prompt: None,
            user_instructions: None,
            shell_environment_policy: "old shell",
            codex_linux_sandbox_exe: None,
            cwd: "/old",
            subagent_depth: None,
            subagent_role: None,
            sandbox_policy: "old sandbox",
            approval_policy: "old approval",
            other: 42,
        },
        model: "model",
        model_provider: "provider",
        model_reasoning_effort: Some(2),
        model_reasoning_summary: 3,
        developer_instructions: Some("developer"),
        base_instructions: Some("base"),
        compact_prompt: Some("compact"),
        user_instructions: Some("user"),
        shell_environment_policy: "shell",
        codex_linux_sandbox_exe: Some("exe"),
        cwd: "/work",
        sandbox_policy: "sandbox",
        approval_policy: "approval",
        subagent_depth: None,
        subagent_role: None,
    }
}

#[test]
fn child_config_takes_over_the_turn() {
    let depth = SubagentDepthContext::new(1);
    let mut wanted = args();
    wanted.role = SubagentRole::General;
    let config = build_subagent_config(turn(), &wanted, depth, "read-only");
    assert_eq!(config.model, Some("model"));
    assert_eq!(config.model_provider, "provider");
    assert_eq!(config.model_reasoning_effort, Some(2));
    assert_eq!(config.model_reasoning_summary, 3);
    assert_eq!(config.developer_instructions, Some("developer"));
    assert_eq!(config.base_instructions, Some("base"));
    assert_eq!(config.compact_prompt, Some("compact"));
    assert_eq!(config.user_instructions, Some("user"));
    assert_eq!(config.shell_environment_policy, "shell");
    assert_eq!(config.codex_linux_sandbox_exe, Some("exe"));
    assert_eq!(config.cwd, "/work");
    assert_eq!(config.subagent_depth, Some(depth));
    assert_eq!(config.subagent_role, Some(SubagentRole::General));
    assert_eq!(config.sandbox_policy, "sandbox");
    assert_eq!(config.approval_policy, "approval");
    assert_eq!(config.other, 42);
}

#[test]
fn read_only_roles_get_the_read_only_sandbox() {
    for role in [SubagentRole::Review, SubagentRole::Analyse, SubagentRole::Plan] {
        for path in [None, Some("out".to_string())] {
            let depth = SubagentDepthContext::new(1);
            let mut wanted = args();
            wanted.role = role;
            wanted.report_path = path.clone();
            wanted.plan_dir = path;
            let config = build_subagent_config(turn(), &wanted, depth, "read-only");
            assert_eq!(config.sandbox_policy, "read-only");
            assert_eq!(config.subagent_role, Some(role));
        }
    }
}

#[test]
fn policies_may_be_rejected() {
    let refused = |reason: &str| Err(reason.to_string());
    assert!(matches!(policy_verdict(Ok(()), Ok(())), PolicyVerdict::Accepted));
    assert!(matches!(
        policy_verdict(refused("s"), Ok(())),
        PolicyVerdict::SandboxRejected(reason) if reason == "s"
    ));
    assert!(matches!(
        policy_verdict(refused("s"), refused("a")),
        PolicyVerdict::SandboxRejected(reason) if reason == "s"
    ));
    assert!(matches!(
        policy_verdict(Ok(()), refused("a")),
        PolicyVerdict::ApprovalRejected(reason) if reason == "a"
    ));
    assert_eq!(admit_config(7, PolicyVerdict::Accepted), Ok(7));
    assert_eq!(
        admit_config(7, PolicyVerdict::SandboxRejected("too wide".to_string())),
        Err(told("Invalid sandbox policy: too wide"))
    );
    assert_eq!(
        admit_config(7, PolicyVerdict::ApprovalRejected("never".to_string())),
        Err(told("Invalid approval policy: never"))
    );
}
