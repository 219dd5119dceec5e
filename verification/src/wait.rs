//! Waiting for a subagent to finish.
use vstd::prelude::*;
use vstd::string::*;

use crate::agent::{AgentStatus, AgentStatusView, StatusReport, StatusReportView, ThreadId};
use crate::result::{SubagentResult, SubagentResultStatus, SubagentResultView};
use crate::role::SubagentRole;

verus! {

/// Where a wait stands.
#[derive(Debug, Clone, Copy, PartialEq, Eq, Structural)]
pub enum WaitPhase {
    /// The agent's status is being subscribed to.
    Subscribing,
    /// The deadline is being set.
    Timing,
    /// The status is being read.
    Reading,
    /// A change of the status, or the deadline, is being waited for.
    Sleeping,
    /// The wait is over.
    Over,
}

/// A wait for a subagent to reach a final status.
#[derive(Debug, PartialEq, Eq)]
pub struct CompletionWait {
    pub agent_id: ThreadId,
    pub timeout_ms: u64,
    pub role: SubagentRole,
    pub depth: u8,
    pub phase: WaitPhase,
}

/// The mathematical value of a `CompletionWait`.
pub struct CompletionWaitView {
    pub agent_id: Seq<char>,
    pub timeout_ms: u64,
    pub role: SubagentRole,
    pub depth: u8,
    pub phase: WaitPhase,
}

impl View for CompletionWait {
    type V = CompletionWaitView;

    open spec fn view(&self) -> CompletionWaitView {
        CompletionWaitView {
            agent_id: self.agent_id@,
            timeout_ms: self.timeout_ms,
            role: self.role,
            depth: self.depth,
            phase: self.phase,
        }
    }
}

/// Something that a wait asks of its surroundings.
#[derive(Debug, PartialEq)]
pub enum WaitAction {
    /// Subscribe to the agent's status.
    Subscribe(ThreadId),
    /// Set the deadline to this many milliseconds from now.
    SetDeadline(u64),
    /// Read the status.
    ReadStatus,
    /// Wait for the status to change, until the deadline.
    AwaitChange,
    /// End the wait with this result.
    Return(SubagentResult),
}

/// The mathematical value of a `WaitAction`.
pub enum WaitActionView {
    Subscribe(Seq<char>),
    SetDeadline(u64),
    ReadStatus,
    AwaitChange,
    Return(SubagentResultView),
}

impl View for WaitAction {
    type V = WaitActionView;

    open spec fn view(&self) -> WaitActionView {
        match self {
            WaitAction::Subscribe(id) => WaitActionView::Subscribe(id@),
            WaitAction::SetDeadline(ms) => WaitActionView::SetDeadline(*ms),
            WaitAction::ReadStatus => WaitActionView::ReadStatus,
            WaitAction::AwaitChange => WaitActionView::AwaitChange,
            WaitAction::Return(result) => WaitActionView::Return(result@),
        }
    }
}

/// What came of a wait's action.
#[derive(Debug, PartialEq)]
pub enum WaitInput {
    /// The status is subscribed to.
    Subscribed,
    /// The status could not be subscribed to.
    SubscribeFailed,
    /// The deadline is set.
    DeadlineSet,
    /// The status that was read.
    Status(StatusReport),
    /// The status has changed.
    Changed,
    /// The status will not change any more, as nobody is left to change it.
    ChannelClosed,
    /// The deadline has passed.
    DeadlinePassed,
}

/// The mathematical value of a `WaitInput`.
pub enum WaitInputView {
    Subscribed,
    SubscribeFailed,
    DeadlineSet,
    Status(StatusReportView),
    Changed,
    ChannelClosed,
    DeadlinePassed,
}

impl View for WaitInput {
    type V = WaitInputView;

    open spec fn view(&self) -> WaitInputView {
        match self {
            WaitInput::Subscribed => WaitInputView::Subscribed,
            WaitInput::SubscribeFailed => WaitInputView::SubscribeFailed,
            WaitInput::DeadlineSet => WaitInputView::DeadlineSet,
            WaitInput::Status(report) => WaitInputView::Status(report@),
            WaitInput::Changed => WaitInputView::Changed,
            WaitInput::ChannelClosed => WaitInputView::ChannelClosed,
            WaitInput::DeadlinePassed => WaitInputView::DeadlinePassed,
        }
    }
}

/// The status that a task ends with when its agent ends in `status`.
pub open spec fn final_status(status: AgentStatusView) -> SubagentResultStatus {
    match status {
        AgentStatusView::Completed(_) => SubagentResultStatus::Success,
        AgentStatusView::Shutdown => SubagentResultStatus::Cancelled,
        _ => SubagentResultStatus::Failed,
    }
}

/// The output that a task ends with when its agent ends in `status`.
pub open spec fn final_output(status: AgentStatusView) -> Option<Seq<char>> {
    match status {
        AgentStatusView::Completed(message) => message,
        AgentStatusView::Errored(error) => Some(error),
        _ => None,
    }
}

impl CompletionWaitView {
    /// The first-round result of this wait with the given status and output.
    pub open spec fn result(
        self,
        status: SubagentResultStatus,
        output: Option<Seq<char>>,
    ) -> SubagentResultView {
        SubagentResultView {
            agent_id: self.agent_id,
            role: self.role,
            depth: self.depth,
            status,
            output,
            round: 1,
        }
    }

    /// This wait in another phase.
    pub open spec fn in_phase(self, phase: WaitPhase) -> CompletionWaitView {
        CompletionWaitView { phase, ..self }
    }

    /// The end of this wait with the given status and output.
    pub open spec fn ended(self, status: SubagentResultStatus, output: Option<Seq<char>>) -> (
        CompletionWaitView,
        Option<WaitActionView>,
    ) {
        (self.in_phase(WaitPhase::Over), Some(WaitActionView::Return(self.result(status, output))))
    }

    /// What a wait does on an input. An input that its phase does not expect
    /// leaves it as it is.
    pub open spec fn next(self, input: WaitInputView) -> (
        CompletionWaitView,
        Option<WaitActionView>,
    ) {
        match (self.phase, input) {
            (WaitPhase::Subscribing, WaitInputView::Subscribed) => (
                self.in_phase(WaitPhase::Timing),
                Some(WaitActionView::SetDeadline(self.timeout_ms)),
            ),
            (WaitPhase::Subscribing, WaitInputView::SubscribeFailed) => self.ended(
                SubagentResultStatus::Failed,
                Some("Failed to subscribe to subagent status"@),
            ),
            (WaitPhase::Timing, WaitInputView::DeadlineSet) => (
                self.in_phase(WaitPhase::Reading),
                Some(WaitActionView::ReadStatus),
            ),
            (WaitPhase::Reading, WaitInputView::Status(report)) => if report.is_final {
                self.ended(final_status(report.status), final_output(report.status))
            } else {
                (self.in_phase(WaitPhase::Sleeping), Some(WaitActionView::AwaitChange))
            },
            (WaitPhase::Sleeping, WaitInputView::Changed) => (
                self.in_phase(WaitPhase::Reading),
                Some(WaitActionView::ReadStatus),
            ),
            (WaitPhase::Sleeping, WaitInputView::ChannelClosed) => self.ended(
                SubagentResultStatus::Failed,
                Some("Subagent channel closed unexpectedly"@),
            ),
            (WaitPhase::Sleeping, WaitInputView::DeadlinePassed) => self.ended(
                SubagentResultStatus::TimedOut,
                None,
            ),
            _ => (self, None),
        }
    }

    /// Where a wait stands after a series of inputs, and all that it asked for
    /// on the way.
    pub open spec fn run(self, inputs: Seq<WaitInputView>) -> (
        CompletionWaitView,
        Seq<WaitActionView>,
    )
        decreases inputs.len(),
    {
        if inputs.len() == 0 {
            (self, Seq::empty())
        } else {
            let (before, actions) = self.run(inputs.drop_last());
            let (after, action) = before.next(inputs.last());
            (
                after,
                match action {
                    Some(a) => actions.push(a),
                    None => actions,
                },
            )
        }
    }
}

/// A wait that has not asked for anything yet.
pub open spec fn fresh_wait(
    agent_id: Seq<char>,
    timeout_ms: u64,
    role: SubagentRole,
    depth: u8,
) -> CompletionWaitView {
    CompletionWaitView { agent_id, timeout_ms, role, depth, phase: WaitPhase::Subscribing }
}

/// The value of an optional action.
pub open spec fn wait_action_view(action: Option<WaitAction>) -> Option<WaitActionView> {
    match action {
        Some(a) => Some(a@),
        None => None,
    }
}

/// Starts to wait for a subagent to reach a final status.
pub fn wait_for_subagent_completion(
    agent_id: ThreadId,
    timeout_ms: u64,
    role: SubagentRole,
    depth: u8,
) -> (r: (CompletionWait, WaitAction))
    ensures
        r.0@ == fresh_wait(agent_id@, timeout_ms, role, depth),
        r.1@ == WaitActionView::Subscribe(agent_id@),
{
    let action = WaitAction::Subscribe(agent_id.clone());
    (CompletionWait { agent_id, timeout_ms, role, depth, phase: WaitPhase::Subscribing }, action)
}

impl CompletionWait {
    /// This wait in another phase.
    fn enter(self, phase: WaitPhase) -> (wait: Self)
        ensures
            wait@ == self@.in_phase(phase),
    {
        CompletionWait {
            agent_id: self.agent_id,
            timeout_ms: self.timeout_ms,
            role: self.role,
            depth: self.depth,
            phase,
        }
    }

    /// Ends this wait with the given status and output.
    fn end(self, status: SubagentResultStatus, output: Option<String>) -> (r: (
        Self,
        Option<WaitAction>,
    ))
        ensures
            (r.0@, wait_action_view(r.1)) == self@.ended(status, output.deep_view()),
    {
        let result = SubagentResult {
            agent_id: self.agent_id.clone(),
            role: self.role,
            depth: self.depth,
            status,
            output,
            round: 1,
        };
        (self.enter(WaitPhase::Over), Some(WaitAction::Return(result)))
    }

    /// Takes an input and says what to do next, if anything.
    pub fn step(self, input: WaitInput) -> (r: (Self, Option<WaitAction>))
        ensures
            (r.0@, wait_action_view(r.1)) == self@.next(input@),
    {
        match (self.phase, input) {
            (WaitPhase::Subscribing, WaitInput::Subscribed) => {
                let action = WaitAction::SetDeadline(self.timeout_ms);
                (self.enter(WaitPhase::Timing), Some(action))
            },
            (WaitPhase::Subscribing, WaitInput::SubscribeFailed) => self.end(
                SubagentResultStatus::Failed,
                Some("Failed to subscribe to subagent status".to_string()),
            ),
            (WaitPhase::Timing, WaitInput::DeadlineSet) => (
                self.enter(WaitPhase::Reading),
                Some(WaitAction::ReadStatus),
            ),
            (WaitPhase::Reading, WaitInput::Status(report)) => {
                if report.is_final {
                    match report.status {
                        AgentStatus::Completed(message) => self.end(
                            SubagentResultStatus::Success,
                            message,
                        ),
                        AgentStatus::Errored(error) => self.end(
                            SubagentResultStatus::Failed,
                            Some(error),
                        ),
                        AgentStatus::Shutdown => self.end(SubagentResultStatus::Cancelled, None),
                        _ => self.end(SubagentResultStatus::Failed, None),
                    }
                } else {
                    (self.enter(WaitPhase::Sleeping), Some(WaitAction::AwaitChange))
                }
            },
            (WaitPhase::Sleeping, WaitInput::Changed) => (
                self.enter(WaitPhase::Reading),
                Some(WaitAction::ReadStatus),
            ),
            (WaitPhase::Sleeping, WaitInput::ChannelClosed) => self.end(
                SubagentResultStatus::Failed,
                Some("Subagent channel closed unexpectedly".to_string()),
            ),
            (WaitPhase::Sleeping, WaitInput::DeadlinePassed) => self.end(
                SubagentResultStatus::TimedOut,
                None,
            ),
            _ => (self, None),
        }
    }
}

/// A wait answers about its own agent, in the first round; it reports success
/// exactly on a final completion, a timeout exactly when the deadline passed,
/// and a cancellation exactly when the agent was shut down.
pub proof fn law_wait_answers_truly(wait: CompletionWaitView, input: WaitInputView)
    ensures
        wait.next(input).1 matches Some(WaitActionView::Return(result)) ==> {
            &&& result.agent_id == wait.agent_id
            &&& result.role == wait.role
            &&& result.depth == wait.depth
            &&& result.round == 1
            &&& result.status == SubagentResultStatus::Success <==> (input matches
                WaitInputView::Status(report) && report.status is Completed)
            &&& result.status == SubagentResultStatus::TimedOut <==> input is DeadlinePassed
            &&& result.status == SubagentResultStatus::Cancelled <==> (input matches
                WaitInputView::Status(report) && report.status is Shutdown)
            &&& input matches WaitInputView::Status(report) ==> report.is_final
            &&& wait.next(input).0.phase == WaitPhase::Over
        },
{
}

/// An input is of the kind that a wait's action asks for.
pub open spec fn wait_answers(action: WaitActionView, input: WaitInputView) -> bool {
    match action {
        WaitActionView::Subscribe(_) => input is Subscribed || input is SubscribeFailed,
        WaitActionView::SetDeadline(_) => input is DeadlineSet,
        WaitActionView::ReadStatus => input is Status,
        WaitActionView::AwaitChange => input is Changed || input is ChannelClosed
            || input is DeadlinePassed,
        WaitActionView::Return(_) => false,
    }
}

impl CompletionWaitView {
    /// The inputs that a wait waits for.
    pub open spec fn awaits(self, input: WaitInputView) -> bool {
        match self.phase {
            WaitPhase::Subscribing => input is Subscribed || input is SubscribeFailed,
            WaitPhase::Timing => input is DeadlineSet,
            WaitPhase::Reading => input is Status,
            WaitPhase::Sleeping => input is Changed || input is ChannelClosed
                || input is DeadlinePassed,
            WaitPhase::Over => false,
        }
    }
}

/// A wait takes every answer: an input that it waits for gives an action,
/// which returns exactly when the wait is then over, and what answers that
/// action is waited for. What answers a fresh wait's subscription is, too.
pub proof fn law_wait_takes_every_answer(wait: CompletionWaitView, input: WaitInputView)
    ensures
        ({
            let (after, action) = wait.next(input);
            &&& wait.awaits(input) <==> action is Some
            &&& action matches Some(a) ==> {
                &&& a is Return <==> after.phase == WaitPhase::Over
                &&& forall|answer: WaitInputView| #[trigger]
                    wait_answers(a, answer) ==> after.awaits(answer)
            }
        }),
        wait.phase == WaitPhase::Subscribing && wait_answers(
            WaitActionView::Subscribe(wait.agent_id),
            input,
        ) ==> wait.awaits(input),
{
}

/// Updates never extend a deadline: whatever a wait is told, it sets a deadline
/// once at most, before all else that it asks for after its subscription, and
/// to the time that it was given.
pub proof fn law_deadline_is_set_once(
    agent_id: Seq<char>,
    timeout_ms: u64,
    role: SubagentRole,
    depth: u8,
    inputs: Seq<WaitInputView>,
)
    ensures
        ({
            let (after, actions) = fresh_wait(agent_id, timeout_ms, role, depth).run(inputs);
            &&& after.timeout_ms == timeout_ms
            &&& after.phase == WaitPhase::Subscribing ==> actions.len() == 0
            &&& forall|i: int|
                0 <= i < actions.len() && (#[trigger] actions[i]) is SetDeadline ==> i == 0
                    && actions[i] == WaitActionView::SetDeadline(timeout_ms)
        }),
    decreases inputs.len(),
{
    if inputs.len() > 0 {
        law_deadline_is_set_once(agent_id, timeout_ms, role, depth, inputs.drop_last());
    }
}

/// A wait that is over asks for nothing more.
pub proof fn law_wait_ends_once(wait: CompletionWaitView, inputs: Seq<WaitInputView>)
    requires
        wait.phase == WaitPhase::Over,
    ensures
        wait.run(inputs) == (wait, Seq::<WaitActionView>::empty()),
    decreases inputs.len(),
{
    if inputs.len() > 0 {
        law_wait_ends_once(wait, inputs.drop_last());
    }
}

/// The inputs of a wait that subscribes, sets its deadline and then makes the
/// given readings, each after the first one on a change of the status.
pub open spec fn watching(readings: Seq<StatusReportView>) -> Seq<WaitInputView>
    decreases readings.len(),
{
    if readings.len() == 0 {
        seq![WaitInputView::Subscribed, WaitInputView::DeadlineSet]
    } else if readings.len() == 1 {
        watching(readings.drop_last()).push(WaitInputView::Status(readings.last()))
    } else {
        watching(readings.drop_last()).push(WaitInputView::Changed).push(
            WaitInputView::Status(readings.last()),
        )
    }
}

/// None of the readings is final.
pub open spec fn all_passing(readings: Seq<StatusReportView>) -> bool {
    forall|i: int| 0 <= i < readings.len() ==> !(#[trigger] readings[i]).is_final
}

/// Pushing an input onto a series runs one step more.
proof fn lemma_run_push(
    wait: CompletionWaitView,
    inputs: Seq<WaitInputView>,
    input: WaitInputView,
)
    ensures
        wait.run(inputs.push(input)).0 == wait.run(inputs).0.next(input).0,
        wait.run(inputs).0.next(input).1 matches Some(a) ==> wait.run(inputs.push(input)).1
            == wait.run(inputs).1.push(a),
{
    assert(inputs.push(input).drop_last() =~= inputs);
}

/// As long as no reading is final, a wait goes on and returns nothing.
pub proof fn law_wait_is_patient(
    agent_id: Seq<char>,
    timeout_ms: u64,
    role: SubagentRole,
    depth: u8,
    readings: Seq<StatusReportView>,
)
    requires
        all_passing(readings),
    ensures
        ({
            let wait = fresh_wait(agent_id, timeout_ms, role, depth);
            let (after, actions) = wait.run(watching(readings));
            &&& after == wait.in_phase(
                if readings.len() == 0 {
                    WaitPhase::Reading
                } else {
                    WaitPhase::Sleeping
                },
            )
            &&& forall|i: int|
                0 <= i < actions.len() ==> !((#[trigger] actions[i]) is Return)
        }),
    decreases readings.len(),
{
    let wait = fresh_wait(agent_id, timeout_ms, role, depth);
    if readings.len() == 0 {
        let none = Seq::<WaitInputView>::empty();
        assert(wait.run(none) == (wait, Seq::<WaitActionView>::empty()));
        lemma_run_push(wait, none, WaitInputView::Subscribed);
        lemma_run_push(
            wait,
            none.push(WaitInputView::Subscribed),
            WaitInputView::DeadlineSet,
        );
        assert(watching(readings) =~= none.push(WaitInputView::Subscribed).push(
            WaitInputView::DeadlineSet,
        ));
    } else {
        let earlier = readings.drop_last();
        assert(all_passing(earlier)) by {
            assert forall|i: int| 0 <= i < earlier.len() implies !(
            #[trigger] earlier[i]).is_final by {
                assert(readings[i] == earlier[i]);
            }
        }
        law_wait_is_patient(agent_id, timeout_ms, role, depth, earlier);
        let inputs = watching(earlier);
        assert(!readings[readings.len() - 1].is_final);
        if readings.len() > 1 {
            lemma_run_push(wait, inputs, WaitInputView::Changed);
            lemma_run_push(
                wait,
                inputs.push(WaitInputView::Changed),
                WaitInputView::Status(readings.last()),
            );
        } else {
            lemma_run_push(wait, inputs, WaitInputView::Status(readings.last()));
        }
    }
}

/// A wait returns on the first final reading, with what that reading says,
/// however many readings went before it.
pub proof fn law_wait_returns_the_final_status(
    agent_id: Seq<char>,
    timeout_ms: u64,
    role: SubagentRole,
    depth: u8,
    readings: Seq<StatusReportView>,
)
    requires
        readings.len() > 0,
        all_passing(readings.drop_last()),
        readings.last().is_final,
    ensures
        ({
            let wait = fresh_wait(agent_id, timeout_ms, role, depth);
            let (after, actions) = wait.run(watching(readings));
            let status = readings.last().status;
            &&& after.phase == WaitPhase::Over
            &&& actions.len() > 0
            &&& actions.last() == WaitActionView::Return(
                wait.result(final_status(status), final_output(status)),
            )
        }),
{
    let wait = fresh_wait(agent_id, timeout_ms, role, depth);
    let inputs = watching(readings.drop_last());
    law_wait_is_patient(agent_id, timeout_ms, role, depth, readings.drop_last());
    if readings.len() > 1 {
        lemma_run_push(wait, inputs, WaitInputView::Changed);
        lemma_run_push(
            wait,
            inputs.push(WaitInputView::Changed),
            WaitInputView::Status(readings.last()),
        );
    } else {
        lemma_run_push(wait, inputs, WaitInputView::Status(readings.last()));
    }
}

/// A wait whose deadline passes before any reading is final times out, without output.
pub proof fn law_wait_times_out(
    agent_id: Seq<char>,
    timeout_ms: u64,
    role: SubagentRole,
    depth: u8,
    readings: Seq<StatusReportView>,
)
    requires
        readings.len() > 0,
        all_passing(readings),
    ensures
        ({
            let wait = fresh_wait(agent_id, timeout_ms, role, depth);
            let (after, actions) = wait.run(
                watching(readings).push(WaitInputView::DeadlinePassed),
            );
            &&& after.phase == WaitPhase::Over
            &&& actions.len() > 0
            &&& actions.last() == WaitActionView::Return(
                wait.result(SubagentResultStatus::TimedOut, None),
            )
        }),
{
    let wait = fresh_wait(agent_id, timeout_ms, role, depth);
    law_wait_is_patient(agent_id, timeout_ms, role, depth, readings);
    lemma_run_push(wait, watching(readings), WaitInputView::DeadlinePassed);
}

} // verus!
