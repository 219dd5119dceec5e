//! How waits, watchers and tool calls go, action by action: every field of
//! what they ask for, in terms of what they were started with and told.
use vstd::prelude::*;

use crate::agent::{AgentStatusView, StatusReportView};
use crate::args::SpawnSubagentArgsView;
use crate::depth::SubagentDepthContext;
use crate::effect::{ActionView, InputView, OutcomeView, ReplyView, SpawnEndView};
use crate::error::{CodexErrKindView, CodexErrView, FunctionCallErrorView};
use crate::handler::{SubagentCall, ToolRun};
use crate::result::{SubagentResultOutputView, SubagentResultStatus, SubagentResultView};
use crate::role::SubagentRole;
use crate::spawn::{SpawnPlanView, SpawnStageView};
use crate::text;
use crate::tools::{CloseCallView, StatusCall, WaitCall};
use crate::wait::{CompletionWaitView, WaitActionView, WaitInputView, WaitPhase};
use crate::watch::{WatchPhase, WatcherView};

verus! {

// Waiting.

/// A wait keeps what it was started with.
pub proof fn law_fresh_wait(agent_id: Seq<char>, timeout_ms: u64, role: SubagentRole, depth: u8)
    ensures
        ({
            let wait = crate::wait::fresh_wait(agent_id, timeout_ms, role, depth);
            &&& wait.agent_id == agent_id
            &&& wait.timeout_ms == timeout_ms
            &&& wait.role == role
            &&& wait.depth == depth
            &&& wait.phase == WaitPhase::Subscribing
        }),
{
}

/// On a final reading a wait returns what the agent said, whatever its role
/// and depth: the last message of an agent that completed, the error of one
/// that failed, and nothing otherwise.
pub proof fn law_wait_returns_what_was_said(wait: CompletionWaitView, report: StatusReportView)
    requires
        wait.phase == WaitPhase::Reading,
        report.is_final,
    ensures
        ({
            let (after, action) = wait.next(WaitInputView::Status(report));
            &&& after == (CompletionWaitView { phase: WaitPhase::Over, ..wait })
            &&& action matches Some(WaitActionView::Return(result))
            &&& result.agent_id == wait.agent_id
            &&& result.role == wait.role
            &&& result.depth == wait.depth
            &&& result.round == 1
            &&& report.status matches AgentStatusView::Completed(message) ==> result.output
                == message && result.status == SubagentResultStatus::Success
            &&& report.status matches AgentStatusView::Errored(error) ==> result.output == Some(
                error,
            ) && result.status == SubagentResultStatus::Failed
            &&& report.status is Shutdown ==> result.output is None && result.status
                == SubagentResultStatus::Cancelled
            &&& report.status is NotFound ==> result.output is None && result.status
                == SubagentResultStatus::Failed
            &&& report.status is Other ==> result.output is None && result.status
                == SubagentResultStatus::Failed
        }),
{
}

/// A wait that cannot subscribe, whose agent goes away or whose time is up says
/// so, for every role and depth.
pub proof fn law_wait_says_what_went_wrong(wait: CompletionWaitView, input: WaitInputView)
    requires
        ({
            ||| wait.phase == WaitPhase::Subscribing && input is SubscribeFailed
            ||| wait.phase == WaitPhase::Sleeping && input is ChannelClosed
            ||| wait.phase == WaitPhase::Sleeping && input is DeadlinePassed
        }),
    ensures
        ({
            let (after, action) = wait.next(input);
            &&& after == (CompletionWaitView { phase: WaitPhase::Over, ..wait })
            &&& action matches Some(WaitActionView::Return(result))
            &&& result.agent_id == wait.agent_id
            &&& result.role == wait.role
            &&& result.depth == wait.depth
            &&& result.round == 1
            &&& input is SubscribeFailed ==> result.status == SubagentResultStatus::Failed
                && result.output == Some("Failed to subscribe to subagent status"@)
            &&& input is ChannelClosed ==> result.status == SubagentResultStatus::Failed
                && result.output == Some("Subagent channel closed unexpectedly"@)
            &&& input is DeadlinePassed ==> result.status == SubagentResultStatus::TimedOut
                && result.output is None
        }),
{
}

/// A wait sets its deadline to the time it was given, then reads the status,
/// and after a reading that is not final reads again on every change. It keeps
/// its agent, time, role and depth all along.
pub proof fn law_wait_goes_on(wait: CompletionWaitView, report: StatusReportView)
    requires
        !report.is_final,
    ensures
        wait.phase == WaitPhase::Subscribing ==> wait.next(WaitInputView::Subscribed) == (
            CompletionWaitView { phase: WaitPhase::Timing, ..wait },
            Some(WaitActionView::SetDeadline(wait.timeout_ms)),
        ),
        wait.phase == WaitPhase::Timing ==> wait.next(WaitInputView::DeadlineSet) == (
            CompletionWaitView { phase: WaitPhase::Reading, ..wait },
            Some(WaitActionView::ReadStatus),
        ),
        wait.phase == WaitPhase::Reading ==> wait.next(WaitInputView::Status(report)) == (
            CompletionWaitView { phase: WaitPhase::Sleeping, ..wait },
            Some(WaitActionView::AwaitChange),
        ),
        wait.phase == WaitPhase::Sleeping ==> wait.next(WaitInputView::Changed) == (
            CompletionWaitView { phase: WaitPhase::Reading, ..wait },
            Some(WaitActionView::ReadStatus),
        ),
{
}

/// What a wait did not ask for changes nothing.
pub proof fn law_wait_minds_its_phase(wait: CompletionWaitView, input: WaitInputView)
    requires
        wait.phase == WaitPhase::Subscribing ==> !(input is Subscribed) && !(
        input is SubscribeFailed),
        wait.phase == WaitPhase::Timing ==> !(input is DeadlineSet),
        wait.phase == WaitPhase::Reading ==> !(input is Status),
        wait.phase == WaitPhase::Sleeping ==> !(input is Changed) && !(input is ChannelClosed) && !(
        input is DeadlinePassed),
    ensures
        wait.next(input) == (wait, None::<WaitActionView>),
{
}

/// However many readings go before, the first final one ends a wait with what
/// the agent said, under the agent, role and depth that the wait was given.
pub proof fn law_wait_ends_with_the_agent(
    agent_id: Seq<char>,
    timeout_ms: u64,
    role: SubagentRole,
    depth: u8,
    readings: Seq<StatusReportView>,
)
    requires
        readings.len() > 0,
        crate::wait::all_passing(readings.drop_last()),
        readings.last().is_final,
    ensures
        ({
            let wait = crate::wait::fresh_wait(agent_id, timeout_ms, role, depth);
            let (after, actions) = wait.run(crate::wait::watching(readings));
            &&& actions.len() > 0
            &&& actions.last() matches WaitActionView::Return(result)
            &&& result.agent_id == agent_id
            &&& result.role == role
            &&& result.depth == depth
            &&& result.round == 1
            &&& result.status == SubagentResultStatus::Success
                <==> readings.last().status is Completed
            &&& result.status == SubagentResultStatus::Cancelled
                <==> readings.last().status is Shutdown
            &&& result.status != SubagentResultStatus::TimedOut
            &&& result.status != SubagentResultStatus::Partial
            &&& readings.last().status matches AgentStatusView::Completed(message)
                ==> result.output == message
            &&& readings.last().status matches AgentStatusView::Errored(error)
                ==> result.output == Some(error)
            &&& !(readings.last().status is Completed) && !(readings.last().status is Errored)
                ==> result.output is None
        }),
{
    crate::wait::law_wait_returns_the_final_status(agent_id, timeout_ms, role, depth, readings);
}

// Watching.

/// A watcher passes on the result it waited for, field by field, under the
/// call, parent and agent that it was started with; then it shuts that agent
/// down, however that goes, and is done.
pub proof fn law_watcher_passes_the_result_on<C>(
    watcher: WatcherView,
    result: SubagentResultView,
    shutdown: Result<(), CodexErrView>,
)
    requires
        watcher.phase == WatchPhase::Waiting,
    ensures
        ({
            let (announcing, told) = watcher.next::<C>(InputView::Waited(result));
            let (closing, asked) = announcing.next::<C>(InputView::Sent);
            let (over, rest) = closing.next::<C>(InputView::ShutDown(shutdown));
            &&& told matches Some(ActionView::SendComplete(event))
            &&& event.call_id == watcher.call_id
            &&& event.parent_thread_id == watcher.parent_thread_id
            &&& event.subagent_thread_id == watcher.agent_id
            &&& event.result.agent_id == result.agent_id
            &&& event.result.role == result.role
            &&& event.result.depth == result.depth
            &&& event.result.status == result.status
            &&& event.result.output == result.output
            &&& event.result.round == result.round
            &&& announcing == (WatcherView { phase: WatchPhase::Announcing, ..watcher })
            &&& asked == Some(ActionView::<C>::Shutdown(watcher.agent_id))
            &&& closing == (WatcherView { phase: WatchPhase::Closing, ..watcher })
            &&& rest is None
            &&& over == (WatcherView { phase: WatchPhase::Over, ..watcher })
        }),
{
}

/// What a watcher did not ask for changes nothing.
pub proof fn law_watcher_minds_its_phase<C>(watcher: WatcherView, input: InputView)
    requires
        watcher.phase == WatchPhase::Waiting ==> !(input is Waited),
        watcher.phase == WatchPhase::Announcing ==> !(input is Sent),
        watcher.phase == WatchPhase::Closing ==> !(input is ShutDown),
    ensures
        watcher.next::<C>(input) == (watcher, None::<ActionView<C>>),
{
}

// Asking, waiting and closing.

/// The reply to a status call shows the reading's text. It holds a result
/// exactly if the agent has completed: a success of the first round, with the
/// agent's message as output. The call then ends well with the reply's text, or
/// with the reason why there is none.
pub proof fn law_status_is_told_as_read<C>(
    report: StatusReportView,
    content: Seq<char>,
    reason: Seq<char>,
)
    ensures
        ({
            let (replying, asked) = StatusCall::Reading.next::<C>(InputView::Status(report));
            &&& asked matches Some(ActionView::Serialize(reply))
            &&& reply matches ReplyView::Status { status, result }
            &&& status == report.text
            &&& result is Some <==> report.status is Completed
            &&& report.status matches AgentStatusView::Completed(message) ==> {
                &&& result matches Some(shown)
                &&& shown.status == "success"@
                &&& shown.output == message
                &&& shown.round == 1
            }
            &&& replying.next::<C>(InputView::Serialized(Ok(content))) == (
                StatusCall::Over,
                Some(
                    ActionView::<C>::Finish(
                        OutcomeView::Output { content, success: Some(true), content_items: None },
                    ),
                ),
            )
            &&& replying.next::<C>(InputView::Serialized(Err(reason))) == (
                StatusCall::Over,
                Some(
                    ActionView::<C>::Finish(
                        OutcomeView::Error(
                            FunctionCallErrorView::Fatal("Failed to serialize result: "@ + reason),
                        ),
                    ),
                ),
            )
        }),
{
}

/// What a status call did not ask for changes nothing.
pub proof fn law_status_call_minds_its_stage<C>(call: StatusCall, input: InputView)
    requires
        call == StatusCall::Reading ==> !(input is Status),
        call == StatusCall::Replying ==> !(input is Serialized),
    ensures
        call.next::<C>(input) == (call, None::<ActionView<C>>),
{
}

/// The reply to a wait call shows the result's status by name, whether the time
/// was up, and the result's output and round. The call then ends with the
/// reply's text, well exactly if the task succeeded, or with the reason why
/// there is none.
pub proof fn law_wait_is_told_as_it_went<C>(
    result: SubagentResultView,
    content: Seq<char>,
    reason: Seq<char>,
)
    ensures
        ({
            let (replying, asked) = WaitCall::Waiting.next::<C>(InputView::Waited(result));
            &&& asked matches Some(ActionView::Serialize(reply))
            &&& reply matches ReplyView::Wait { status, timed_out, result: shown }
            &&& result.status == SubagentResultStatus::Success ==> status == "Success"@
            &&& result.status == SubagentResultStatus::Partial ==> status == "Partial"@
            &&& result.status == SubagentResultStatus::Failed ==> status == "Failed"@
            &&& result.status == SubagentResultStatus::TimedOut ==> status == "TimedOut"@
            &&& result.status == SubagentResultStatus::Cancelled ==> status == "Cancelled"@
            &&& timed_out <==> result.status == SubagentResultStatus::TimedOut
            &&& shown == Some(
                SubagentResultOutputView { status, output: result.output, round: result.round },
            )
            &&& replying.next::<C>(InputView::Serialized(Ok(content))) == (
                WaitCall::Over,
                Some(
                    ActionView::<C>::Finish(
                        OutcomeView::Output {
                            content,
                            success: Some(result.status == SubagentResultStatus::Success),
                            content_items: None,
                        },
                    ),
                ),
            )
            &&& replying.next::<C>(InputView::Serialized(Err(reason))) == (
                WaitCall::Over,
                Some(
                    ActionView::<C>::Finish(
                        OutcomeView::Error(
                            FunctionCallErrorView::Fatal("Failed to serialize result: "@ + reason),
                        ),
                    ),
                ),
            )
        }),
{
}

/// What a wait call did not ask for changes nothing.
pub proof fn law_wait_call_minds_its_stage<C>(call: WaitCall, input: InputView)
    requires
        call == WaitCall::Waiting ==> !(input is Waited),
        call is Replying ==> !(input is Serialized),
    ensures
        call.next::<C>(input) == (call, None::<ActionView<C>>),
{
}

/// A close call shuts its agent down unless the agent is down already, and
/// answers "shutdown" either way; the reply's text then ends the call well.
pub proof fn law_closing_is_told<C>(
    id: Seq<char>,
    report: StatusReportView,
    content: Seq<char>,
    reason: Seq<char>,
)
    ensures
        ({
            let told = Some(
                ActionView::<C>::Serialize(
                    ReplyView::Status { status: "shutdown"@, result: None },
                ),
            );
            let reading = CloseCallView::Reading(id);
            let (read, asked) = reading.next::<C>(InputView::Status(report));
            let closed = CloseCallView::Closing(id).next::<C>(InputView::ShutDown(Ok(())));
            &&& report.status is Shutdown ==> read == CloseCallView::Replying && asked == told
            &&& !(report.status is Shutdown) ==> read == CloseCallView::Closing(id) && asked
                == Some(ActionView::<C>::Shutdown(id))
            &&& closed == (CloseCallView::Replying, told)
            &&& CloseCallView::Replying.next::<C>(InputView::Serialized(Ok(content))) == (
                CloseCallView::Over,
                Some(
                    ActionView::<C>::Finish(
                        OutcomeView::Output { content, success: Some(true), content_items: None },
                    ),
                ),
            )
            &&& CloseCallView::Replying.next::<C>(InputView::Serialized(Err(reason))) == (
                CloseCallView::Over,
                Some(
                    ActionView::<C>::Finish(
                        OutcomeView::Error(
                            FunctionCallErrorView::Fatal("Failed to serialize result: "@ + reason),
                        ),
                    ),
                ),
            )
        }),
{
}

/// A shutdown that fails ends a close call at once, with an answer that names
/// the thread that was not found, the agent that is closed, the want of a
/// manager, or the failure in its own words.
pub proof fn law_failed_closing_is_told<C>(id: Seq<char>, err: CodexErrView)
    ensures
        ({
            let (after, action) = CloseCallView::Closing(id).next::<C>(
                InputView::ShutDown(Err(err)),
            );
            &&& after == CloseCallView::Over
            &&& action matches Some(ActionView::Finish(outcome))
            &&& outcome matches OutcomeView::Error(answer)
            &&& answer matches FunctionCallErrorView::RespondToModel(told)
            &&& err.kind matches CodexErrKindView::ThreadNotFound(missing) ==> told
                == "Subagent with id "@ + missing + " not found"@
            &&& err.kind is InternalAgentDied ==> told == "Subagent with id "@ + id
                + " is closed"@
            &&& err.kind is UnsupportedOperation ==> told == "Subagent manager unavailable"@
            &&& err.kind is Other ==> told == "Subagent operation failed: "@ + err.message
        }),
{
}

/// What a close call did not ask for changes nothing.
pub proof fn law_close_call_minds_its_stage<C>(call: CloseCallView, input: InputView)
    requires
        call is Reading ==> !(input is Status),
        call is Closing ==> !(input is ShutDown),
        call is Replying ==> !(input is Serialized),
    ensures
        call.next::<C>(input) == (call, None::<ActionView<C>>),
{
}

// Spawning.

/// A spawn is refused for want of room first, then for its roles, then for want
/// of a task, each time in these words; otherwise it is not refused. Below the
/// limit, what a role may not spawn is refused with the one role that it may.
pub proof fn law_refusals_in_words(
    depth: SubagentDepthContext,
    parent: SubagentRole,
    args: SpawnSubagentArgsView,
)
    ensures
        ({
            let refused = crate::spawn::refusal(depth, parent, args);
            let room = depth.current < depth.max && depth.current < 3;
            let fits = args.role == SubagentRole::Analyse || (parent == SubagentRole::General
                && depth.current < 2);
            let task = !text::blank(args.overview) && !text::blank(args.goal);
            &&& refused is None <==> room && fits && task
            &&& !room ==> refused == Some(
                FunctionCallErrorView::RespondToModel(
                    "Cannot spawn subagent: maximum depth "@ + text::decimal(3)
                        + " reached. Current depth: "@ + text::decimal(depth.current as nat) + "/"@
                        + text::decimal(depth.max as nat),
                ),
            )
            &&& room && !fits ==> refused == Some(
                FunctionCallErrorView::RespondToModel(
                    "Role "@ + parent.label() + " cannot spawn "@ + args.role.label()
                        + " at depth "@ + text::decimal(depth.current as nat)
                        + ". Allowed roles: "@ + "[Analyse]"@,
                ),
            )
            &&& room && fits && !task ==> refused == Some(
                FunctionCallErrorView::RespondToModel(
                    "Task overview and goal are required and cannot be empty"@,
                ),
            )
        }),
{
    let room = depth.current < depth.max && depth.current < 3;
    let fits = args.role == SubagentRole::Analyse || (parent == SubagentRole::General
        && depth.current < 2);
    if room && !fits {
        let roles = parent.child_roles(depth.current);
        let names = roles.map_values(|role: SubagentRole| role.label());
        assert(names =~= seq!["Analyse"@]);
        crate::behaviour::law_joining(Seq::empty(), "Analyse"@, ", "@);
        reveal_strlit("[");
        reveal_strlit("Analyse");
        reveal_strlit("]");
        reveal_strlit("[Analyse]");
        assert("["@ + "Analyse"@ + "]"@ =~= "[Analyse]"@);
    }
}

/// A spawn that is not refused is planned as requested: under its call and its
/// parent's thread, for the requested role, one level below its parent, in the
/// background or not, for the requested time up to half an hour, and with the
/// prompt for the child's depth. It is announced in just these terms.
pub proof fn law_spawn_is_planned_as_requested(
    call_id: Seq<char>,
    parent_thread_id: Seq<char>,
    depth: SubagentDepthContext,
    parent: SubagentRole,
    args: SpawnSubagentArgsView,
)
    requires
        crate::spawn::refusal(depth, parent, args) is None,
    ensures
        ({
            let plan = crate::spawn::plan_of(call_id, parent_thread_id, depth, args);
            let begin = plan.begin(args.overview);
            &&& plan.call_id == call_id
            &&& plan.parent_thread_id == parent_thread_id
            &&& plan.role == args.role
            &&& plan.depth.current == depth.current + 1
            &&& plan.depth.max == depth.max
            &&& plan.background == args.background
            &&& args.timeout_ms is None ==> plan.timeout_ms == 300_000
            &&& args.timeout_ms matches Some(ms) ==> {
                &&& ms <= 1_800_000 ==> plan.timeout_ms == ms
                &&& ms > 1_800_000 ==> plan.timeout_ms == 1_800_000
            }
            &&& plan.prompt == crate::prompt::prompt_text(args, plan.depth)
            &&& begin.call_id == call_id
            &&& begin.parent_thread_id == parent_thread_id
            &&& begin.role == args.role
            &&& begin.depth.current == depth.current + 1
            &&& begin.depth.max == depth.max
            &&& begin.background == args.background
            &&& begin.overview == args.overview
        }),
{
}

/// Once its agent is launched, a synchronous spawn waits for exactly that
/// agent: for the requested time up to half an hour, or five minutes where none
/// was requested, under the requested role and at the child's depth.
pub proof fn law_spawn_waits_as_requested<C>(
    call_id: Seq<char>,
    parent_thread_id: Seq<char>,
    depth: SubagentDepthContext,
    parent: SubagentRole,
    args: SpawnSubagentArgsView,
    id: Seq<char>,
)
    requires
        crate::spawn::refusal(depth, parent, args) is None,
        !args.background,
    ensures
        ({
            let plan = crate::spawn::plan_of(call_id, parent_thread_id, depth, args);
            let (after, action) = plan.next(
                SpawnStageView::<C>::Launching,
                InputView::Launched(Ok(id)),
            );
            &&& action matches Some(ActionView::Wait { agent_id, timeout_ms, role, depth: level })
            &&& agent_id == id
            &&& args.timeout_ms is None ==> timeout_ms == 300_000
            &&& args.timeout_ms matches Some(ms) ==> {
                &&& ms <= 1_800_000 ==> timeout_ms == ms
                &&& ms > 1_800_000 ==> timeout_ms == 1_800_000
            }
            &&& role == args.role
            &&& level == depth.current + 1
            &&& after == SpawnStageView::<C>::Waiting(id)
        }),
{
}

/// Once announced, a spawn tries its policies. One that may not be set ends it,
/// the sandbox policy first; otherwise the agent is launched under the very
/// configuration that was tried and with the planned prompt.
pub proof fn law_launch_follows_the_policies<C>(
    plan: SpawnPlanView,
    config: C,
    sandbox: Result<(), Seq<char>>,
    approval: Result<(), Seq<char>>,
)
    ensures
        ({
            let (stage, tried) = plan.next(SpawnStageView::Announcing(config), InputView::Sent);
            let (after, action) = plan.next(
                stage,
                InputView::PoliciesTried { sandbox, approval },
            );
            &&& tried == Some(ActionView::<C>::TryPolicies)
            &&& sandbox matches Err(reason) ==> after == SpawnStageView::<C>::Over && action
                == Some(
                ActionView::<C>::Finish(
                    OutcomeView::Error(
                        FunctionCallErrorView::RespondToModel(
                            "Invalid sandbox policy: "@ + reason,
                        ),
                    ),
                ),
            )
            &&& sandbox is Ok ==> (approval matches Err(reason) ==> after == SpawnStageView::<
                C,
            >::Over && action == Some(
                ActionView::<C>::Finish(
                    OutcomeView::Error(
                        FunctionCallErrorView::RespondToModel(
                            "Invalid approval policy: "@ + reason,
                        ),
                    ),
                ),
            ))
            &&& sandbox is Ok && approval is Ok ==> after == SpawnStageView::<C>::Launching
                && action == Some(ActionView::<C>::Launch { config, prompt: plan.prompt })
        }),
{
}

/// A launch that fails is announced as the end of the spawn, without an agent
/// or a result, and then answered: with the want of a manager, or with the
/// failure in its own words.
pub proof fn law_failed_launch_is_told<C>(plan: SpawnPlanView, err: CodexErrView)
    ensures
        ({
            let (failing, sent) = plan.next(
                SpawnStageView::<C>::Launching,
                InputView::Launched(Err(err)),
            );
            let (over, ended) = plan.next(failing, InputView::Sent);
            &&& sent == Some(
                ActionView::<C>::SendEnd(
                    SpawnEndView {
                        call_id: plan.call_id,
                        parent_thread_id: plan.parent_thread_id,
                        subagent_thread_id: None,
                        role: plan.role,
                        depth: plan.depth.current,
                        background: plan.background,
                        status: AgentStatusView::NotFound,
                        result: None,
                    },
                ),
            )
            &&& over is Over
            &&& ended matches Some(ActionView::Finish(outcome))
            &&& outcome matches OutcomeView::Error(answer)
            &&& answer matches FunctionCallErrorView::RespondToModel(told)
            &&& err.kind is UnsupportedOperation ==> told == "Subagent manager unavailable"@
            &&& !(err.kind is UnsupportedOperation) ==> told == "Subagent spawn failed: "@
                + err.message
        }),
{
}

/// A background spawn, from the launch of its agent: the agent's status is
/// read, a watcher is started for it, the end is announced without a result,
/// and the model is told of the agent and its status. The call ends well.
pub proof fn law_background_spawn<C>(
    plan: SpawnPlanView,
    id: Seq<char>,
    report: StatusReportView,
    content: Seq<char>,
    reason: Seq<char>,
)
    requires
        plan.background,
    ensures
        ({
            let (checking, read) = plan.next(
                SpawnStageView::<C>::Launching,
                InputView::Launched(Ok(id)),
            );
            let (watching, watched) = plan.next(checking, InputView::Status(report));
            let (reporting, sent) = plan.next(watching, InputView::WatcherStarted);
            let (replying, told) = plan.next(reporting, InputView::Sent);
            &&& read == Some(ActionView::<C>::GetStatus(id))
            &&& watched == Some(
                ActionView::<C>::StartWatcher {
                    call_id: plan.call_id,
                    parent_thread_id: plan.parent_thread_id,
                    agent_id: id,
                    role: plan.role,
                    depth: plan.depth.current,
                },
            )
            &&& sent == Some(
                ActionView::<C>::SendEnd(
                    SpawnEndView {
                        call_id: plan.call_id,
                        parent_thread_id: plan.parent_thread_id,
                        subagent_thread_id: Some(id),
                        role: plan.role,
                        depth: plan.depth.current,
                        background: true,
                        status: report.status,
                        result: None,
                    },
                ),
            )
            &&& told == Some(
                ActionView::<C>::Serialize(
                    ReplyView::Spawn {
                        agent_id: id,
                        background: true,
                        status: report.text,
                        result: None,
                    },
                ),
            )
            &&& plan.next(replying, InputView::Serialized(Ok(content))) == (
                SpawnStageView::<C>::Over,
                Some(
                    ActionView::<C>::Finish(
                        OutcomeView::Output { content, success: Some(true), content_items: None },
                    ),
                ),
            )
            &&& plan.next(replying, InputView::Serialized(Err(reason))) == (
                SpawnStageView::<C>::Over,
                Some(
                    ActionView::<C>::Finish(
                        OutcomeView::Error(
                            FunctionCallErrorView::Fatal("Failed to serialize result: "@ + reason),
                        ),
                    ),
                ),
            )
        }),
{
}

/// A synchronous spawn, from the launch of its agent: the agent is waited for
/// and its status read, the end is announced with the result, the agent is shut
/// down, however that goes, and the model is told of the agent, its status and
/// its result. The call ends well exactly if the task succeeded.
pub proof fn law_synchronous_spawn<C>(
    plan: SpawnPlanView,
    id: Seq<char>,
    result: SubagentResultView,
    report: StatusReportView,
    shutdown: Result<(), CodexErrView>,
    content: Seq<char>,
    reason: Seq<char>,
)
    requires
        !plan.background,
    ensures
        ({
            let (waiting, waited) = plan.next(
                SpawnStageView::<C>::Launching,
                InputView::Launched(Ok(id)),
            );
            let (settling, read) = plan.next(waiting, InputView::Waited(result));
            let (concluding, sent) = plan.next(settling, InputView::Status(report));
            let (closing, asked) = plan.next(concluding, InputView::Sent);
            let (replying, told) = plan.next(closing, InputView::ShutDown(shutdown));
            &&& waited == Some(
                ActionView::<C>::Wait {
                    agent_id: id,
                    timeout_ms: plan.timeout_ms,
                    role: plan.role,
                    depth: plan.depth.current,
                },
            )
            &&& read == Some(ActionView::<C>::GetStatus(id))
            &&& sent == Some(
                ActionView::<C>::SendEnd(
                    SpawnEndView {
                        call_id: plan.call_id,
                        parent_thread_id: plan.parent_thread_id,
                        subagent_thread_id: Some(id),
                        role: plan.role,
                        depth: plan.depth.current,
                        background: false,
                        status: report.status,
                        result: Some(result),
                    },
                ),
            )
            &&& asked == Some(ActionView::<C>::Shutdown(id))
            &&& told == Some(
                ActionView::<C>::Serialize(
                    ReplyView::Spawn {
                        agent_id: id,
                        background: false,
                        status: report.text,
                        result: Some(
                            SubagentResultOutputView {
                                status: match result.status {
                                    SubagentResultStatus::Success => "Success"@,
                                    SubagentResultStatus::Partial => "Partial"@,
                                    SubagentResultStatus::Failed => "Failed"@,
                                    SubagentResultStatus::TimedOut => "TimedOut"@,
                                    SubagentResultStatus::Cancelled => "Cancelled"@,
                                },
                                output: result.output,
                                round: result.round,
                            },
                        ),
                    },
                ),
            )
            &&& plan.next(replying, InputView::Serialized(Ok(content))) == (
                SpawnStageView::<C>::Over,
                Some(
                    ActionView::<C>::Finish(
                        OutcomeView::Output {
                            content,
                            success: Some(result.status == SubagentResultStatus::Success),
                            content_items: None,
                        },
                    ),
                ),
            )
            &&& plan.next(replying, InputView::Serialized(Err(reason))) == (
                SpawnStageView::<C>::Over,
                Some(
                    ActionView::<C>::Finish(
                        OutcomeView::Error(
                            FunctionCallErrorView::Fatal("Failed to serialize result: "@ + reason),
                        ),
                    ),
                ),
            )
        }),
{
}

/// What a spawn did not ask for changes nothing.
pub proof fn law_spawn_minds_its_stage<C>(
    plan: SpawnPlanView,
    stage: SpawnStageView<C>,
    input: InputView,
)
    requires
        stage is Announcing ==> !(input is Sent),
        stage is Configuring ==> !(input is PoliciesTried),
        stage is Launching ==> !(input is Launched),
        stage is Failing ==> !(input is Sent),
        stage is Checking ==> !(input is Status),
        stage is Watching ==> !(input is WatcherStarted),
        stage is Reporting ==> !(input is Sent),
        stage is Waiting ==> !(input is Waited),
        stage is Settling ==> !(input is Status),
        stage is Concluding ==> !(input is Sent),
        stage is Closing ==> !(input is ShutDown),
        stage is Replying ==> !(input is Serialized),
    ensures
        plan.next(stage, input) == (stage, None::<ActionView<C>>),
{
}

// Handling.

/// A call goes to the tool of its name with its arguments untouched, and to no
/// tool under any other name.
pub proof fn law_calls_keep_their_arguments(tool_name: Seq<char>, arguments: String)
    ensures
        tool_name == "spawn_subagent"@ ==> crate::handler::call_of(tool_name, arguments) == Some(
            SubagentCall::Spawn(arguments),
        ),
        tool_name == "get_subagent_status"@ ==> crate::handler::call_of(tool_name, arguments)
            == Some(SubagentCall::GetStatus(arguments)),
        tool_name == "wait_subagent"@ ==> crate::handler::call_of(tool_name, arguments) == Some(
            SubagentCall::Wait(arguments),
        ),
        tool_name == "close_subagent"@ ==> crate::handler::call_of(tool_name, arguments) == Some(
            SubagentCall::Close(arguments),
        ),
        tool_name != "spawn_subagent"@ && tool_name != "get_subagent_status"@ && tool_name
            != "wait_subagent"@ && tool_name != "close_subagent"@ ==> crate::handler::call_of(
            tool_name,
            arguments,
        ) is None,
{
    crate::handler::law_each_tool_has_its_name(tool_name, arguments);
}

/// A call under way stays its tool's: it goes on as that tool does, and no call
/// turns into another tool's.
pub proof fn law_runs_stay_with_their_tool<C>(
    run: ToolRun<C>,
    input: InputView,
    after: ToolRun<C>,
    action: Option<ActionView<C>>,
)
    requires
        run.follows(input, after, action),
    ensures
        run matches ToolRun::Spawn(a) ==> {
            &&& after matches ToolRun::Spawn(b)
            &&& b.plan == a.plan
            &&& b.stage@ == a.plan@.next(a.stage@, input).0
            &&& action == a.plan@.next(a.stage@, input).1
        },
        run matches ToolRun::GetStatus(a) ==> {
            &&& after matches ToolRun::GetStatus(b)
            &&& b == a.next::<C>(input).0
            &&& action == a.next::<C>(input).1
        },
        run matches ToolRun::Wait(a) ==> {
            &&& after matches ToolRun::Wait(b)
            &&& b == a.next::<C>(input).0
            &&& action == a.next::<C>(input).1
        },
        run matches ToolRun::Close(a) ==> {
            &&& after matches ToolRun::Close(b)
            &&& b@ == a@.next::<C>(input).0
            &&& action == a@.next::<C>(input).1
        },
{
}

} // verus!
