//! The tools that ask about, wait for and close subagents.
use vstd::prelude::*;
use vstd::string::*;

use crate::agent::{AgentStatus, AgentStatusView, StatusReportView, ThreadId};
use crate::args::{effective_timeout, GetSubagentStatusArgs, WaitSubagentArgs};
use crate::effect::{
    finish, Action, ActionView, GetSubagentStatusResult, Input, InputView, OutcomeView, Reply,
    ReplyView, WaitSubagentResult,
};
use crate::error::{parse_agent_id, subagent_error, FunctionCallError};
use crate::result::{
    SubagentResultOutput, SubagentResultOutputView, SubagentResultStatus,
    SubagentResultView,
};
use crate::role::SubagentRole;

verus! {

/// Where a get_subagent_status call stands.
#[derive(Debug, Clone, Copy, PartialEq, Eq, Structural)]
pub enum StatusCall {
    /// The status is being read.
    Reading,
    /// The reply is being put into text.
    Replying,
    /// The call is over.
    Over,
}

/// What a model is shown of a status: the status as text and, once the agent
/// has completed, its message.
pub open spec fn status_reply(report: StatusReportView) -> ReplyView {
    ReplyView::Status {
        status: report.text,
        result: match report.status {
            AgentStatusView::Completed(output) => Some(
                SubagentResultOutputView { status: "success"@, output, round: 1 },
            ),
            _ => None,
        },
    }
}

impl StatusCall {
    /// The inputs that a call waits for.
    pub open spec fn awaits(self, input: InputView) -> bool {
        match self {
            StatusCall::Reading => input is Status,
            StatusCall::Replying => input is Serialized,
            StatusCall::Over => false,
        }
    }

    /// What a call does on an input. An input that it does not expect leaves
    /// it as it is.
    pub open spec fn next<C>(self, input: InputView) -> (StatusCall, Option<ActionView<C>>) {
        match (self, input) {
            (StatusCall::Reading, InputView::Status(report)) => (
                StatusCall::Replying,
                Some(ActionView::Serialize(status_reply(report))),
            ),
            (StatusCall::Replying, InputView::Serialized(text)) => (
                StatusCall::Over,
                Some(ActionView::Finish(crate::effect::ending(text, true))),
            ),
            _ => (self, None),
        }
    }

    /// Takes an input and says what to do next, if anything.
    pub fn step<C>(self, input: Input) -> (r: (Self, Option<Action<C>>))
        ensures
            (r.0, crate::effect::action_view(r.1)) == self.next::<C>(input@),
    {
        match (self, input) {
            (StatusCall::Reading, Input::Status(report)) => {
                let result = match report.status {
                    AgentStatus::Completed(output) => Some(
                        SubagentResultOutput { status: "success".to_string(), output, round: 1 },
                    ),
                    _ => None,
                };
                let reply = GetSubagentStatusResult { status: report.text, result };
                (StatusCall::Replying, Some(Action::Serialize(Reply::Status(reply))))
            },
            (StatusCall::Replying, Input::Serialized(text)) => (
                StatusCall::Over,
                Some(Action::Finish(finish(text, true))),
            ),
            (call, _) => (call, None),
        }
    }
}

/// Get the status of a subagent. `reading` is what the runtime makes of the
/// identifier in the arguments.
pub fn get_subagent_status<C>(
    args: GetSubagentStatusArgs,
    reading: Result<ThreadId, String>,
) -> (r: Result<(StatusCall, Action<C>), FunctionCallError>)
    ensures
        match reading {
            Ok(id) => r is Ok && r->Ok_0.0 == StatusCall::Reading && r->Ok_0.1@
                == ActionView::<C>::GetStatus(id@),
            Err(reason) => r is Err && r->Err_0@ == crate::error::bad_agent_id(args.id@, reason@),
        },
{
    match parse_agent_id(args.id.as_str(), reading) {
        Ok(id) => Ok((StatusCall::Reading, Action::GetStatus(id))),
        Err(e) => Err(e),
    }
}

/// Where a wait_subagent call stands.
#[derive(Debug, Clone, Copy, PartialEq, Eq, Structural)]
pub enum WaitCall {
    /// The agent is being waited for.
    Waiting,
    /// The reply is being put into text; it marks a success or a failure.
    Replying(bool),
    /// The call is over.
    Over,
}

/// What a model is shown of a result that it waited for.
pub open spec fn wait_reply(result: SubagentResultView) -> ReplyView {
    ReplyView::Wait {
        status: result.status.label(),
        timed_out: result.status == SubagentResultStatus::TimedOut,
        result: Some(crate::result::output_of(result)),
    }
}

impl WaitCall {
    /// The inputs that a call waits for.
    pub open spec fn awaits(self, input: InputView) -> bool {
        match self {
            WaitCall::Waiting => input is Waited,
            WaitCall::Replying(_) => input is Serialized,
            WaitCall::Over => false,
        }
    }

    /// What a call does on an input. An input that it does not expect leaves
    /// it as it is.
    pub open spec fn next<C>(self, input: InputView) -> (WaitCall, Option<ActionView<C>>) {
        match (self, input) {
            (WaitCall::Waiting, InputView::Waited(result)) => (
                WaitCall::Replying(result.status == SubagentResultStatus::Success),
                Some(ActionView::Serialize(wait_reply(result))),
            ),
            (WaitCall::Replying(success), InputView::Serialized(text)) => (
                WaitCall::Over,
                Some(ActionView::Finish(crate::effect::ending(text, success))),
            ),
            _ => (self, None),
        }
    }

    /// Takes an input and says what to do next, if anything.
    pub fn step<C>(self, input: Input) -> (r: (Self, Option<Action<C>>))
        ensures
            (r.0, crate::effect::action_view(r.1)) == self.next::<C>(input@),
    {
        match (self, input) {
            (WaitCall::Waiting, Input::Waited(result)) => {
                let timed_out = matches!(result.status, SubagentResultStatus::TimedOut);
                let success = result.is_success();
                let reply = WaitSubagentResult {
                    status: result.status.name().to_string(),
                    timed_out,
                    result: Some(SubagentResultOutput::from(result)),
                };
                (
                    WaitCall::Replying(success && !timed_out),
                    Some(Action::Serialize(Reply::Wait(reply))),
                )
            },
            (WaitCall::Replying(success), Input::Serialized(text)) => (
                WaitCall::Over,
                Some(Action::Finish(finish(text, success))),
            ),
            (call, _) => (call, None),
        }
    }
}

/// Wait for a subagent to complete. `reading` is what the runtime makes of the
/// identifier in the arguments. The agent counts as a general one at depth 1.
pub fn wait_subagent<C>(args: WaitSubagentArgs, reading: Result<ThreadId, String>) -> (r: Result<
    (WaitCall, Action<C>),
    FunctionCallError,
>)
    ensures
        match reading {
            Ok(id) => r is Ok && r->Ok_0.0 == WaitCall::Waiting && r->Ok_0.1@ == (ActionView::<
                C,
            >::Wait {
                agent_id: id@,
                timeout_ms: crate::args::timeout_for(args.timeout_ms),
                role: SubagentRole::General,
                depth: 1,
            }),
            Err(reason) => r is Err && r->Err_0@ == crate::error::bad_agent_id(args.id@, reason@),
        },
{
    match parse_agent_id(args.id.as_str(), reading) {
        Ok(agent_id) => {
            let timeout_ms = effective_timeout(args.timeout_ms);
            Ok(
                (
                    WaitCall::Waiting,
                    Action::Wait { agent_id, timeout_ms, role: SubagentRole::General, depth: 1 },
                ),
            )
        },
        Err(e) => Err(e),
    }
}

/// Where a close_subagent call stands.
#[derive(Debug, PartialEq, Eq)]
pub enum CloseCall {
    /// The status of the agent is being read.
    Reading(ThreadId),
    /// The agent is being shut down.
    Closing(ThreadId),
    /// The reply is being put into text.
    Replying,
    /// The call is over.
    Over,
}

/// The mathematical value of a `CloseCall`.
pub enum CloseCallView {
    Reading(Seq<char>),
    Closing(Seq<char>),
    Replying,
    Over,
}

impl View for CloseCall {
    type V = CloseCallView;

    open spec fn view(&self) -> CloseCallView {
        match self {
            CloseCall::Reading(id) => CloseCallView::Reading(id@),
            CloseCall::Closing(id) => CloseCallView::Closing(id@),
            CloseCall::Replying => CloseCallView::Replying,
            CloseCall::Over => CloseCallView::Over,
        }
    }
}

/// What a model is shown once an agent is closed.
pub open spec fn close_reply() -> ReplyView {
    ReplyView::Status { status: "shutdown"@, result: None }
}

impl CloseCallView {
    /// The inputs that a call waits for.
    pub open spec fn awaits(self, input: InputView) -> bool {
        match self {
            CloseCallView::Reading(_) => input is Status,
            CloseCallView::Closing(_) => input is ShutDown,
            CloseCallView::Replying => input is Serialized,
            CloseCallView::Over => false,
        }
    }

    /// What a call does on an input. An input that it does not expect leaves
    /// it as it is.
    pub open spec fn next<C>(self, input: InputView) -> (CloseCallView, Option<ActionView<C>>) {
        match (self, input) {
            (CloseCallView::Reading(id), InputView::Status(report)) => if report.status is Shutdown {
                (CloseCallView::Replying, Some(ActionView::Serialize(close_reply())))
            } else {
                (CloseCallView::Closing(id), Some(ActionView::Shutdown(id)))
            },
            (CloseCallView::Closing(id), InputView::ShutDown(Ok(_))) => (
                CloseCallView::Replying,
                Some(ActionView::Serialize(close_reply())),
            ),
            (CloseCallView::Closing(id), InputView::ShutDown(Err(e))) => (
                CloseCallView::Over,
                Some(
                    ActionView::Finish(
                        OutcomeView::Error(crate::error::operation_failure(id, e)),
                    ),
                ),
            ),
            (CloseCallView::Replying, InputView::Serialized(text)) => (
                CloseCallView::Over,
                Some(ActionView::Finish(crate::effect::ending(text, true))),
            ),
            _ => (self, None),
        }
    }
}

/// The reply once an agent is closed.
fn closed() -> (reply: Reply)
    ensures
        reply@ == close_reply(),
{
    Reply::Status(GetSubagentStatusResult { status: "shutdown".to_string(), result: None })
}

impl CloseCall {
    /// Takes an input and says what to do next, if anything.
    pub fn step<C>(self, input: Input) -> (r: (Self, Option<Action<C>>))
        ensures
            (r.0@, crate::effect::action_view(r.1)) == self@.next::<C>(input@),
    {
        match (self, input) {
            (CloseCall::Reading(id), Input::Status(report)) => {
                if matches!(report.status, AgentStatus::Shutdown) {
                    (CloseCall::Replying, Some(Action::Serialize(closed())))
                } else {
                    let action = Action::Shutdown(id.clone());
                    (CloseCall::Closing(id), Some(action))
                }
            },
            (CloseCall::Closing(id), Input::ShutDown(outcome)) => match outcome {
                Ok(_) => (CloseCall::Replying, Some(Action::Serialize(closed()))),
                Err(e) => (
                    CloseCall::Over,
                    Some(Action::Finish(Err(subagent_error(&id, e)))),
                ),
            },
            (CloseCall::Replying, Input::Serialized(text)) => (
                CloseCall::Over,
                Some(Action::Finish(finish(text, true))),
            ),
            (call, _) => (call, None),
        }
    }
}

/// Close/shutdown a subagent. `reading` is what the runtime makes of the
/// identifier in the arguments.
pub fn close_subagent<C>(args: GetSubagentStatusArgs, reading: Result<ThreadId, String>) -> (r:
    Result<(CloseCall, Action<C>), FunctionCallError>)
    ensures
        match reading {
            Ok(id) => r is Ok && r->Ok_0.0@ == CloseCallView::Reading(id@) && r->Ok_0.1@
                == ActionView::<C>::GetStatus(id@),
            Err(reason) => r is Err && r->Err_0@ == crate::error::bad_agent_id(args.id@, reason@),
        },
{
    match parse_agent_id(args.id.as_str(), reading) {
        Ok(id) => {
            let action = Action::GetStatus(id.clone());
            Ok((CloseCall::Reading(id), action))
        },
        Err(e) => Err(e),
    }
}

/// A wait that timed out is never reported as a success, and a wait is
/// reported as a success exactly when the task succeeded.
pub proof fn law_timeout_is_no_success<C>(result: SubagentResultView, text: Seq<char>)
    ensures
        ({
            let (replying, asked) = WaitCall::Waiting.next::<C>(InputView::Waited(result));
            let (over, ended) = replying.next::<C>(InputView::Serialized(Ok(text)));
            let succeeded = result.status == SubagentResultStatus::Success;
            &&& asked == Some(ActionView::<C>::Serialize(wait_reply(result)))
            &&& ended == Some(
                ActionView::<C>::Finish(
                    OutcomeView::Output {
                        content: text,
                        success: Some(succeeded),
                        content_items: None,
                    },
                ),
            )
            &&& result.status == SubagentResultStatus::TimedOut ==> !succeeded
        }),
{
}

/// Closing is idempotent: an agent that is shut down already is not shut down
/// again, and the reply is the one that a successful shutdown gets.
pub proof fn law_closing_twice_is_closing_once<C>(
    id: Seq<char>,
    down: StatusReportView,
    other: StatusReportView,
)
    requires
        down.status is Shutdown,
        !(other.status is Shutdown),
    ensures
        ({
            let call = CloseCallView::Reading(id);
            let already = call.next::<C>(InputView::Status(down));
            let (closing, asked) = call.next::<C>(InputView::Status(other));
            let after = closing.next::<C>(InputView::ShutDown(Ok(())));
            &&& already.1 == Some(ActionView::<C>::Serialize(close_reply()))
            &&& asked == Some(ActionView::<C>::Shutdown(id))
            &&& after == already
        }),
{
}

/// A get_subagent_status call takes every answer: an input that it waits for
/// gives an action, which ends the call exactly when the call is then over,
/// and what answers that action is waited for.
pub proof fn law_status_call_takes_every_answer<C>(call: StatusCall, input: InputView)
    ensures
        ({
            let (after, action) = call.next::<C>(input);
            &&& call.awaits(input) <==> action is Some
            &&& action matches Some(a) ==> {
                &&& a is Finish <==> after == StatusCall::Over
                &&& forall|answer: InputView| #[trigger]
                    crate::effect::answers(a, answer) ==> after.awaits(answer)
            }
        }),
{
}

/// A wait_subagent call takes every answer: an input that it waits for gives an
/// action, which ends the call exactly when the call is then over, and what
/// answers that action is waited for.
pub proof fn law_wait_call_takes_every_answer<C>(call: WaitCall, input: InputView)
    ensures
        ({
            let (after, action) = call.next::<C>(input);
            &&& call.awaits(input) <==> action is Some
            &&& action matches Some(a) ==> {
                &&& a is Finish <==> after == WaitCall::Over
                &&& forall|answer: InputView| #[trigger]
                    crate::effect::answers(a, answer) ==> after.awaits(answer)
            }
        }),
{
}

/// A close_subagent call takes every answer: an input that it waits for gives
/// an action, which ends the call exactly when the call is then over, and what
/// answers that action is waited for.
pub proof fn law_close_call_takes_every_answer<C>(call: CloseCallView, input: InputView)
    ensures
        ({
            let (after, action) = call.next::<C>(input);
            &&& call.awaits(input) <==> action is Some
            &&& action matches Some(a) ==> {
                &&& a is Finish <==> after is Over
                &&& forall|answer: InputView| #[trigger]
                    crate::effect::answers(a, answer) ==> after.awaits(answer)
            }
        }),
{
}

/// A call that is over asks for nothing more, whatever it is told.
pub proof fn law_finished_calls_rest<C>(input: InputView)
    ensures
        StatusCall::Over.next::<C>(input) == (StatusCall::Over, None::<ActionView<C>>),
        WaitCall::Over.next::<C>(input) == (WaitCall::Over, None::<ActionView<C>>),
        CloseCallView::Over.next::<C>(input) == (CloseCallView::Over, None::<ActionView<C>>),
{
}

/// Asking for a status shuts nothing down, whatever comes back.
pub proof fn law_asking_changes_nothing<C>(call: StatusCall, input: InputView)
    ensures
        call.next::<C>(input).1 matches Some(action) ==> action is Serialize || action is Finish,
{
}

} // verus!
