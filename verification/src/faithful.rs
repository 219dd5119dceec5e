//! The mathematical values tell the whole truth: what a value holds, field by
//! field and variant by variant, its mathematical value holds too.
use vstd::prelude::*;

use crate::agent::{AgentStatus, AgentStatusView, StatusReport, ThreadId};
use crate::args::SpawnSubagentArgs;
use crate::effect::{
    Action, ActionView, Input, InputView, OutcomeView, Reply, ReplyView, SubagentSpawnBeginEvent,
    SubagentSpawnEndEvent, SubagentTaskCompleteEvent, ToolOutput,
};
use crate::error::{
    CodexErr, CodexErrKind, CodexErrKindView, FunctionCallError, FunctionCallErrorView,
};
use crate::result::{SubagentResult, SubagentResultOutput};
use crate::spawn::{SpawnPlan, SpawnStage, SpawnStageView};
use crate::tools::{CloseCall, CloseCallView};
use crate::wait::{CompletionWait, WaitAction, WaitActionView, WaitInput, WaitInputView};
use crate::watch::Watcher;

verus! {

/// Optional text stands for itself.
pub open spec fn same_text(text: Option<String>, value: Option<Seq<char>>) -> bool {
    match text {
        Some(s) => value == Some(s@),
        None => value is None,
    }
}

/// Texts in a list stand for themselves, in their order.
pub open spec fn same_texts(texts: Vec<String>, values: Seq<Seq<char>>) -> bool {
    &&& values.len() == texts@.len()
    &&& forall|i: int| 0 <= i < texts@.len() ==> (#[trigger] values[i]) == texts@[i]@
}

/// Agents and their statuses are what they say.
pub proof fn law_agent_values(id: ThreadId, status: AgentStatus, report: StatusReport)
    ensures
        id@ == id.text@,
        status matches AgentStatus::Completed(message) ==> (status@ matches
            AgentStatusView::Completed(value) && same_text(message, value)),
        status matches AgentStatus::Errored(error) ==> status@ == AgentStatusView::Errored(error@),
        status is Shutdown ==> status@ is Shutdown,
        status is NotFound ==> status@ is NotFound,
        status matches AgentStatus::Other(name) ==> status@ == AgentStatusView::Other(name@),
        report@.status == report.status@,
        report@.text == report.text@,
        report@.is_final == report.is_final,
{
}

/// The arguments of a spawn are what they say.
pub proof fn law_argument_values(args: SpawnSubagentArgs)
    ensures
        args@.role == args.role,
        args@.overview == args.overview@,
        args@.goal == args.goal@,
        same_texts(args.requirements, args@.requirements),
        args@.output_type == args.output_type,
        same_texts(args.context_paths, args@.context_paths),
        same_text(args.additional_context, args@.additional_context),
        args@.background == args.background,
        args@.timeout_ms == args.timeout_ms,
        same_text(args.session_id, args@.session_id),
        same_text(args.report_path, args@.report_path),
        same_text(args.plan_dir, args@.plan_dir),
{
}

/// Results, and what is shown of them, are what they say.
pub proof fn law_result_values(result: SubagentResult, shown: SubagentResultOutput)
    ensures
        result@.agent_id == result.agent_id.text@,
        result@.role == result.role,
        result@.depth == result.depth,
        result@.status == result.status,
        same_text(result.output, result@.output),
        result@.round == result.round,
        shown@.status == shown.status@,
        same_text(shown.output, shown@.output),
        shown@.round == shown.round,
{
}

/// Failures and answers are what they say.
pub proof fn law_error_values(answer: FunctionCallError, kind: CodexErrKind, err: CodexErr)
    ensures
        answer matches FunctionCallError::RespondToModel(s) ==> answer@
            == FunctionCallErrorView::RespondToModel(s@),
        answer matches FunctionCallError::Fatal(s) ==> answer@ == FunctionCallErrorView::Fatal(s@),
        kind is UnsupportedOperation ==> kind@ is UnsupportedOperation,
        kind matches CodexErrKind::ThreadNotFound(id) ==> kind@
            == CodexErrKindView::ThreadNotFound(id.text@),
        kind is InternalAgentDied ==> kind@ is InternalAgentDied,
        kind is Other ==> kind@ is Other,
        err@.kind == err.kind@,
        err@.message == err.message@,
{
}

/// Announcements are what they say.
pub proof fn law_event_values(
    begin: SubagentSpawnBeginEvent,
    end: SubagentSpawnEndEvent,
    complete: SubagentTaskCompleteEvent,
)
    ensures
        begin@.call_id == begin.call_id@,
        begin@.parent_thread_id == begin.parent_thread_id.text@,
        begin@.role == begin.role,
        begin@.depth == begin.depth,
        begin@.background == begin.background,
        begin@.overview == begin.overview@,
        end@.call_id == end.call_id@,
        end@.parent_thread_id == end.parent_thread_id.text@,
        end.subagent_thread_id matches Some(id) ==> end@.subagent_thread_id == Some(id.text@),
        end.subagent_thread_id is None ==> end@.subagent_thread_id is None,
        end@.role == end.role,
        end@.depth == end.depth,
        end@.background == end.background,
        end@.status == end.status@,
        end.result matches Some(result) ==> end@.result == Some(result@),
        end.result is None ==> end@.result is None,
        complete@.call_id == complete.call_id@,
        complete@.parent_thread_id == complete.parent_thread_id.text@,
        complete@.subagent_thread_id == complete.subagent_thread_id.text@,
        complete@.result == complete.result@,
{
}

/// What is shown of an optional output.
pub open spec fn same_output(
    output: Option<SubagentResultOutput>,
    value: Option<crate::result::SubagentResultOutputView>,
) -> bool {
    match output {
        Some(o) => value == Some(o@),
        None => value is None,
    }
}

/// Replies are what they say.
pub proof fn law_reply_values(reply: Reply)
    ensures
        reply matches Reply::Spawn(r) ==> {
            &&& reply@ matches ReplyView::Spawn { agent_id, background, status, result }
            &&& agent_id == r.agent_id@
            &&& background == r.background
            &&& status == r.status@
            &&& same_output(r.result, result)
        },
        reply matches Reply::Status(r) ==> {
            &&& reply@ matches ReplyView::Status { status, result }
            &&& status == r.status@
            &&& same_output(r.result, result)
        },
        reply matches Reply::Wait(r) ==> {
            &&& reply@ matches ReplyView::Wait { status, timed_out, result }
            &&& status == r.status@
            &&& timed_out == r.timed_out
            &&& same_output(r.result, result)
        },
{
}

/// The end of a call is what it says.
pub proof fn law_outcome_values(r: Result<ToolOutput, FunctionCallError>)
    ensures
        r matches Ok(ToolOutput::Function { content, success, content_items }) ==> {
            &&& crate::effect::outcome_view(r) matches OutcomeView::Output {
                content: c,
                success: s,
                content_items: items,
            }
            &&& c == content@
            &&& s == success
            &&& content_items is None <==> items is None
            &&& content_items matches Some(texts) ==> same_texts(texts, items->0)
        },
        r matches Err(e) ==> crate::effect::outcome_view(r) == OutcomeView::Error(e@),
{
}

/// Actions of a call are what they say, and one that is not there has no value.
pub proof fn law_action_values<C>(action: Action<C>)
    ensures
        crate::effect::action_view(Some(action)) == Some(action@),
        crate::effect::action_view(None::<Action<C>>) is None,
        action matches Action::SendBegin(event) ==> action@ == ActionView::<C>::SendBegin(event@),
        action is TryPolicies ==> action@ is TryPolicies,
        action matches Action::Launch { config, prompt } ==> action@ == (ActionView::<C>::Launch {
            config,
            prompt: prompt@,
        }),
        action matches Action::GetStatus(id) ==> action@ == ActionView::<C>::GetStatus(id.text@),
        action matches Action::StartWatcher {
            call_id,
            parent_thread_id,
            agent_id,
            role,
            depth,
        } ==> action@ == (ActionView::<C>::StartWatcher {
            call_id: call_id@,
            parent_thread_id: parent_thread_id.text@,
            agent_id: agent_id.text@,
            role,
            depth,
        }),
        action matches Action::Wait { agent_id, timeout_ms, role, depth } ==> action@ == (
        ActionView::<C>::Wait { agent_id: agent_id.text@, timeout_ms, role, depth }),
        action matches Action::SendEnd(event) ==> action@ == ActionView::<C>::SendEnd(event@),
        action matches Action::SendComplete(event) ==> action@ == ActionView::<C>::SendComplete(
            event@,
        ),
        action matches Action::Shutdown(id) ==> action@ == ActionView::<C>::Shutdown(id.text@),
        action matches Action::Serialize(reply) ==> action@ == ActionView::<C>::Serialize(reply@),
        action matches Action::Finish(r) ==> action@ == ActionView::<C>::Finish(
            crate::effect::outcome_view(r),
        ),
{
}

/// A permission, or the reason why there is none, stands for itself.
pub open spec fn same_permission(r: Result<(), String>, value: Result<(), Seq<char>>) -> bool {
    match r {
        Ok(_) => value is Ok,
        Err(reason) => value == Err::<(), Seq<char>>(reason@),
    }
}

/// Inputs of a call are what they say.
pub proof fn law_input_values(input: Input)
    ensures
        input is Sent ==> input@ is Sent,
        input matches Input::PoliciesTried { sandbox, approval } ==> {
            &&& input@ matches InputView::PoliciesTried { sandbox: s, approval: a }
            &&& same_permission(sandbox, s)
            &&& same_permission(approval, a)
        },
        input matches Input::Launched(Ok(id)) ==> input@ == InputView::Launched(Ok(id.text@)),
        input matches Input::Launched(Err(e)) ==> input@ == InputView::Launched(Err(e@)),
        input matches Input::Status(report) ==> input@ == InputView::Status(report@),
        input is WatcherStarted ==> input@ is WatcherStarted,
        input matches Input::Waited(result) ==> input@ == InputView::Waited(result@),
        input matches Input::ShutDown(Ok(done)) ==> input@ == InputView::ShutDown(Ok(())),
        input matches Input::ShutDown(Err(e)) ==> input@ == InputView::ShutDown(Err(e@)),
        input matches Input::Serialized(Ok(s)) ==> input@ == InputView::Serialized(Ok(s@)),
        input matches Input::Serialized(Err(s)) ==> input@ == InputView::Serialized(Err(s@)),
{
}

/// Plans and stages of a spawn are what they say.
pub proof fn law_spawn_values<C>(plan: SpawnPlan, stage: SpawnStage<C>)
    ensures
        plan@.call_id == plan.call_id@,
        plan@.parent_thread_id == plan.parent_thread_id.text@,
        plan@.role == plan.role,
        plan@.depth == plan.depth,
        plan@.background == plan.background,
        plan@.timeout_ms == plan.timeout_ms,
        plan@.prompt == plan.prompt@,
        stage matches SpawnStage::Announcing(config) ==> stage@ == SpawnStageView::Announcing(
            config,
        ),
        stage matches SpawnStage::Configuring(config) ==> stage@ == SpawnStageView::Configuring(
            config,
        ),
        stage is Launching ==> stage@ is Launching,
        stage matches SpawnStage::Failing(e) ==> stage@ == SpawnStageView::<C>::Failing(e@),
        stage matches SpawnStage::Checking(id) ==> stage@ == SpawnStageView::<C>::Checking(
            id.text@,
        ),
        stage matches SpawnStage::Watching(id, report) ==> stage@ == SpawnStageView::<C>::Watching(
            id.text@,
            report@,
        ),
        stage matches SpawnStage::Reporting(id, report) ==> stage@ == SpawnStageView::<
            C,
        >::Reporting(id.text@, report@),
        stage matches SpawnStage::Waiting(id) ==> stage@ == SpawnStageView::<C>::Waiting(id.text@),
        stage matches SpawnStage::Settling(id, result) ==> stage@ == SpawnStageView::<C>::Settling(
            id.text@,
            result@,
        ),
        stage matches SpawnStage::Concluding(id, report, result) ==> stage@ == SpawnStageView::<
            C,
        >::Concluding(id.text@, report@, result@),
        stage matches SpawnStage::Closing(id, report, result) ==> stage@ == SpawnStageView::<
            C,
        >::Closing(id.text@, report@, result@),
        stage matches SpawnStage::Replying(success) ==> stage@ == SpawnStageView::<C>::Replying(
            success,
        ),
        stage is Over ==> stage@ is Over,
{
}

/// Close calls are what they say.
pub proof fn law_close_call_values(call: CloseCall)
    ensures
        call matches CloseCall::Reading(id) ==> call@ == CloseCallView::Reading(id.text@),
        call matches CloseCall::Closing(id) ==> call@ == CloseCallView::Closing(id.text@),
        call is Replying ==> call@ is Replying,
        call is Over ==> call@ is Over,
{
}

/// Waits, their actions and their inputs are what they say.
pub proof fn law_wait_values(wait: CompletionWait, action: WaitAction, input: WaitInput)
    ensures
        wait@.agent_id == wait.agent_id.text@,
        wait@.timeout_ms == wait.timeout_ms,
        wait@.role == wait.role,
        wait@.depth == wait.depth,
        wait@.phase == wait.phase,
        crate::wait::wait_action_view(Some(action)) == Some(action@),
        crate::wait::wait_action_view(None) is None,
        action matches WaitAction::Subscribe(id) ==> action@ == WaitActionView::Subscribe(id.text@),
        action matches WaitAction::SetDeadline(ms) ==> action@ == WaitActionView::SetDeadline(ms),
        action is ReadStatus ==> action@ is ReadStatus,
        action is AwaitChange ==> action@ is AwaitChange,
        action matches WaitAction::Return(result) ==> action@ == WaitActionView::Return(result@),
        input is Subscribed ==> input@ is Subscribed,
        input is SubscribeFailed ==> input@ is SubscribeFailed,
        input is DeadlineSet ==> input@ is DeadlineSet,
        input matches WaitInput::Status(report) ==> input@ == WaitInputView::Status(report@),
        input is Changed ==> input@ is Changed,
        input is ChannelClosed ==> input@ is ChannelClosed,
        input is DeadlinePassed ==> input@ is DeadlinePassed,
{
}

/// Watchers are what they say.
pub proof fn law_watcher_values(watcher: Watcher)
    ensures
        watcher@.call_id == watcher.call_id@,
        watcher@.parent_thread_id == watcher.parent_thread_id.text@,
        watcher@.agent_id == watcher.agent_id.text@,
        watcher@.phase == watcher.phase,
{
}

} // verus!
