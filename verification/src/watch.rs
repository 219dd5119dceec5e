//! Watching a subagent that runs in the background.
use vstd::prelude::*;

use crate::agent::ThreadId;
use crate::args::MAX_SUBAGENT_TIMEOUT_MS;
use crate::effect::{Action, ActionView, Input, InputView, SubagentTaskCompleteEvent, TaskCompleteView};
use crate::result::SubagentResultView;
use crate::role::SubagentRole;

verus! {

/// Where a watcher stands.
#[derive(Debug, Clone, Copy, PartialEq, Eq, Structural)]
pub enum WatchPhase {
    /// The agent is being waited for.
    Waiting,
    /// The completion is being announced.
    Announcing,
    /// The agent is being shut down.
    Closing,
    /// Nothing is left to do.
    Over,
}

/// Waits for a background agent, announces its completion to the parent and
/// shuts the agent down.
#[derive(Debug, PartialEq, Eq)]
pub struct Watcher {
    pub call_id: String,
    pub parent_thread_id: ThreadId,
    pub agent_id: ThreadId,
    pub phase: WatchPhase,
}

/// The mathematical value of a `Watcher`.
pub struct WatcherView {
    pub call_id: Seq<char>,
    pub parent_thread_id: Seq<char>,
    pub agent_id: Seq<char>,
    pub phase: WatchPhase,
}

impl View for Watcher {
    type V = WatcherView;

    open spec fn view(&self) -> WatcherView {
        WatcherView {
            call_id: self.call_id@,
            parent_thread_id: self.parent_thread_id@,
            agent_id: self.agent_id@,
            phase: self.phase,
        }
    }
}

impl WatcherView {
    /// This watcher in another phase.
    pub open spec fn in_phase(self, phase: WatchPhase) -> WatcherView {
        WatcherView { phase, ..self }
    }

    /// The announcement of a result.
    pub open spec fn announcement(self, result: SubagentResultView) -> TaskCompleteView {
        TaskCompleteView {
            call_id: self.call_id,
            parent_thread_id: self.parent_thread_id,
            subagent_thread_id: self.agent_id,
            result,
        }
    }

    /// What a watcher does on an input. An input that its phase does not
    /// expect leaves it as it is. How the shutdown went makes no difference.
    pub open spec fn next<C>(self, input: InputView) -> (WatcherView, Option<ActionView<C>>) {
        match (self.phase, input) {
            (WatchPhase::Waiting, InputView::Waited(result)) => (
                self.in_phase(WatchPhase::Announcing),
                Some(ActionView::SendComplete(self.announcement(result))),
            ),
            (WatchPhase::Announcing, InputView::Sent) => (
                self.in_phase(WatchPhase::Closing),
                Some(ActionView::Shutdown(self.agent_id)),
            ),
            (WatchPhase::Closing, InputView::ShutDown(_)) => (
                self.in_phase(WatchPhase::Over),
                None,
            ),
            _ => (self, None),
        }
    }
}

/// Starts to watch a background agent. It is given the longest time there is.
pub fn spawn_background_watcher<C>(
    call_id: String,
    parent_thread_id: ThreadId,
    subagent_id: ThreadId,
    role: SubagentRole,
    depth: u8,
) -> (r: (Watcher, Action<C>))
    ensures
        r.0@ == (WatcherView {
            call_id: call_id@,
            parent_thread_id: parent_thread_id@,
            agent_id: subagent_id@,
            phase: WatchPhase::Waiting,
        }),
        r.1@ == (ActionView::<C>::Wait {
            agent_id: subagent_id@,
            timeout_ms: MAX_SUBAGENT_TIMEOUT_MS,
            role,
            depth,
        }),
{
    let action = Action::Wait {
        agent_id: subagent_id.clone(),
        timeout_ms: MAX_SUBAGENT_TIMEOUT_MS,
        role,
        depth,
    };
    (
        Watcher { call_id, parent_thread_id, agent_id: subagent_id, phase: WatchPhase::Waiting },
        action,
    )
}

impl Watcher {
    /// Takes an input and says what to do next, if anything.
    pub fn step<C>(self, input: Input) -> (r: (Self, Option<Action<C>>))
        ensures
            (r.0@, crate::effect::action_view(r.1)) == self@.next::<C>(input@),
    {
        let mut watcher = self;
        match (watcher.phase, input) {
            (WatchPhase::Waiting, Input::Waited(result)) => {
                let event = SubagentTaskCompleteEvent {
                    call_id: watcher.call_id.clone(),
                    parent_thread_id: watcher.parent_thread_id.clone(),
                    subagent_thread_id: watcher.agent_id.clone(),
                    result,
                };
                watcher.phase = WatchPhase::Announcing;
                (watcher, Some(Action::SendComplete(event)))
            },
            (WatchPhase::Announcing, Input::Sent) => {
                let agent_id = watcher.agent_id.clone();
                watcher.phase = WatchPhase::Closing;
                (watcher, Some(Action::Shutdown(agent_id)))
            },
            (WatchPhase::Closing, Input::ShutDown(_)) => {
                watcher.phase = WatchPhase::Over;
                (watcher, None)
            },
            _ => (watcher, None),
        }
    }
}

/// Whatever result a watched agent ends with, and whether or not it can be
/// shut down, the watcher announces exactly that result, then shuts exactly
/// that agent down, and then rests.
pub proof fn law_watcher_announces_then_closes<C>(
    watcher: WatcherView,
    result: SubagentResultView,
    shutdown: Result<(), crate::error::CodexErrView>,
)
    requires
        watcher.phase == WatchPhase::Waiting,
    ensures
        ({
            let (w1, a1) = watcher.next::<C>(InputView::Waited(result));
            let (w2, a2) = w1.next::<C>(InputView::Sent);
            let (w3, a3) = w2.next::<C>(InputView::ShutDown(shutdown));
            &&& a1 == Some(ActionView::<C>::SendComplete(watcher.announcement(result)))
            &&& a2 == Some(ActionView::<C>::Shutdown(watcher.agent_id))
            &&& a3 is None
            &&& w3.phase == WatchPhase::Over
        }),
{
}

/// A watcher takes every answer: what answers its wait is taken, what answers
/// the action it then asks for is taken too, and it asks for nothing more
/// exactly when it is over.
pub proof fn law_watcher_takes_every_answer<C>(watcher: WatcherView, input: InputView)
    requires
        match watcher.phase {
            WatchPhase::Waiting => input is Waited,
            WatchPhase::Announcing => input is Sent,
            WatchPhase::Closing => input is ShutDown,
            WatchPhase::Over => false,
        },
    ensures
        ({
            let (after, action) = watcher.next::<C>(input);
            &&& action is None <==> after.phase == WatchPhase::Over
            &&& action matches Some(a) ==> forall|answer: InputView| #[trigger]
                crate::effect::answers(a, answer) ==> match after.phase {
                    WatchPhase::Waiting => answer is Waited,
                    WatchPhase::Announcing => answer is Sent,
                    WatchPhase::Closing => answer is ShutDown,
                    WatchPhase::Over => false,
                }
        }),
{
}

/// A watcher that is over asks for nothing more, whatever it is told.
pub proof fn law_watcher_rests<C>(watcher: WatcherView, input: InputView)
    requires
        watcher.phase == WatchPhase::Over,
    ensures
        watcher.next::<C>(input) == (watcher, None::<ActionView<C>>),
{
}

} // verus!
