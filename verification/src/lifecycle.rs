//! What holds of a spawn over its whole life, and of spawns that build on spawns.
use vstd::prelude::*;

use crate::agent::{AgentStatusView, StatusReportView};
use crate::args::{SpawnSubagentArgsView, MAX_SUBAGENT_TIMEOUT_MS};
use crate::config::{SettingTypes, TurnContext};
use crate::depth::{SubagentDepthContext, MAX_SUBAGENT_DEPTH};
use crate::effect::{ActionView, InputView, OutcomeView};
use crate::error::CodexErrView;
use crate::result::{SubagentResultStatus, SubagentResultView};
use crate::role::SubagentRole;
use crate::spawn::{SpawnPlanView, SpawnStageView};
use crate::text;
use crate::wait::{CompletionWaitView, WaitActionView, WaitInputView};

verus! {

impl SpawnPlanView {
    /// Where a spawn under a configuration stands after a series of inputs,
    /// and all that it asked for on the way, beginning with its announcement.
    pub open spec fn run<C>(self, overview: Seq<char>, config: C, inputs: Seq<InputView>) -> (
        SpawnStageView<C>,
        Seq<ActionView<C>>,
    )
        decreases inputs.len(),
    {
        if inputs.len() == 0 {
            (SpawnStageView::Announcing(config), seq![ActionView::SendBegin(self.begin(overview))])
        } else {
            let (stage, actions) = self.run(overview, config, inputs.drop_last());
            let (after, action) = self.next(stage, inputs.last());
            (
                after,
                match action {
                    Some(a) => actions.push(a),
                    None => actions,
                },
            )
        }
    }

    /// The announcement of a spawn and the trial of its policies.
    pub open spec fn opening<C>(self, overview: Seq<char>) -> Seq<ActionView<C>> {
        seq![ActionView::SendBegin(self.begin(overview)), ActionView::TryPolicies]
    }

    /// Everything up to the launch of the agent under a configuration.
    pub open spec fn launch<C>(self, overview: Seq<char>, config: C) -> Seq<ActionView<C>> {
        self.opening(overview).push(ActionView::Launch { config, prompt: self.prompt })
    }

    /// Everything up to the end of a launch that failed.
    pub open spec fn failed_launch<C>(self, overview: Seq<char>, config: C) -> Seq<ActionView<C>> {
        self.launch(overview, config).push(
            ActionView::SendEnd(self.end(None, AgentStatusView::NotFound, None)),
        )
    }

    /// Everything up to the reply about the background agent `id`.
    pub open spec fn background_script<C>(
        self,
        overview: Seq<char>,
        config: C,
        id: Seq<char>,
        report: StatusReportView,
    ) -> Seq<ActionView<C>> {
        self.launch(overview, config).push(ActionView::GetStatus(id)).push(self.watch(id)).push(
            ActionView::SendEnd(self.end(Some(id), report.status, None)),
        ).push(ActionView::Serialize(self.reply(id, report, None)))
    }

    /// Everything up to the reply about the agent `id` that was waited for.
    pub open spec fn synchronous_script<C>(
        self,
        overview: Seq<char>,
        config: C,
        id: Seq<char>,
        report: StatusReportView,
        result: SubagentResultView,
    ) -> Seq<ActionView<C>> {
        self.launch(overview, config).push(self.wait(id)).push(ActionView::GetStatus(id)).push(
            ActionView::SendEnd(self.end(Some(id), report.status, Some(result))),
        ).push(ActionView::Shutdown(id)).push(
            ActionView::Serialize(self.reply(id, report, Some(result))),
        )
    }

    /// The spawn ended because a policy may not be set.
    pub open spec fn ended_unconfigured<C>(
        self,
        overview: Seq<char>,
        inputs: Seq<InputView>,
        actions: Seq<ActionView<C>>,
    ) -> bool {
        exists|sandbox: Result<(), Seq<char>>, approval: Result<(), Seq<char>>|
            {
                &&& inputs.contains(InputView::PoliciesTried { sandbox, approval })
                &&& #[trigger] crate::config::policy_refusal(sandbox, approval) matches Some(answer)
                &&& actions == self.opening::<C>(overview).push(
                    ActionView::Finish(OutcomeView::Error(answer)),
                )
            }
    }

    /// The spawn ended because the agent could not be launched.
    pub open spec fn ended_unlaunched<C>(
        self,
        overview: Seq<char>,
        config: C,
        inputs: Seq<InputView>,
        actions: Seq<ActionView<C>>,
    ) -> bool {
        exists|e: CodexErrView|
            {
                &&& inputs.contains(InputView::Launched(Err(e)))
                &&& actions == self.failed_launch(overview, config).push(
                    ActionView::Finish(OutcomeView::Error(#[trigger] crate::error::spawn_failure(e))),
                )
            }
    }

    /// The spawn is about to reply about the agent that was launched, which
    /// runs in the background.
    pub open spec fn reports_background<C>(
        self,
        overview: Seq<char>,
        config: C,
        inputs: Seq<InputView>,
        actions: Seq<ActionView<C>>,
    ) -> bool {
        exists|id: Seq<char>, report: StatusReportView|
            {
                &&& inputs.contains(InputView::Launched(Ok(id)))
                &&& inputs.contains(InputView::Status(report))
                &&& actions == #[trigger] self.background_script(overview, config, id, report)
            }
    }

    /// The spawn is about to reply about the agent that was launched, which
    /// was waited for and was or was not successful.
    pub open spec fn reports_synchronous<C>(
        self,
        overview: Seq<char>,
        config: C,
        success: bool,
        inputs: Seq<InputView>,
        actions: Seq<ActionView<C>>,
    ) -> bool {
        exists|id: Seq<char>, report: StatusReportView, result: SubagentResultView|
            {
                &&& inputs.contains(InputView::Launched(Ok(id)))
                &&& inputs.contains(InputView::Waited(result))
                &&& inputs.contains(InputView::Status(report))
                &&& actions == #[trigger] self.synchronous_script(
                    overview,
                    config,
                    id,
                    report,
                    result,
                )
                &&& success == (result.status == SubagentResultStatus::Success)
            }
    }

    /// The spawn is about to reply about its agent.
    pub open spec fn reports<C>(
        self,
        overview: Seq<char>,
        config: C,
        success: bool,
        inputs: Seq<InputView>,
        actions: Seq<ActionView<C>>,
    ) -> bool {
        if self.background {
            success && self.reports_background(overview, config, inputs, actions)
        } else {
            self.reports_synchronous(overview, config, success, inputs, actions)
        }
    }

    /// The spawn ended with a reply, or for want of its text.
    pub open spec fn ended_with_reply<C>(
        self,
        overview: Seq<char>,
        config: C,
        inputs: Seq<InputView>,
        actions: Seq<ActionView<C>>,
    ) -> bool {
        exists|text: Result<Seq<char>, Seq<char>>, success: bool|
            {
                &&& actions.len() > 0
                &&& actions.last() == ActionView::<C>::Finish(#[trigger] crate::effect::ending(text, success))
                &&& self.reports(overview, config, success, inputs, actions.drop_last())
            }
    }

    /// All that a spawn at the given stage has asked for so far, and been told.
    pub open spec fn so_far<C>(
        self,
        overview: Seq<char>,
        config: C,
        inputs: Seq<InputView>,
        stage: SpawnStageView<C>,
        actions: Seq<ActionView<C>>,
    ) -> bool {
        let launch = self.launch(overview, config);
        match stage {
            SpawnStageView::Announcing(pending) => {
                &&& pending == config
                &&& actions == seq![ActionView::<C>::SendBegin(self.begin(overview))]
            },
            SpawnStageView::Configuring(pending) => {
                &&& pending == config
                &&& actions == self.opening::<C>(overview)
            },
            SpawnStageView::Launching => actions == launch,
            SpawnStageView::Failing(e) => {
                &&& inputs.contains(InputView::Launched(Err(e)))
                &&& actions == self.failed_launch(overview, config)
            },
            SpawnStageView::Checking(id) => {
                &&& self.background
                &&& inputs.contains(InputView::Launched(Ok(id)))
                &&& actions == launch.push(ActionView::GetStatus(id))
            },
            SpawnStageView::Watching(id, report) => {
                &&& self.background
                &&& inputs.contains(InputView::Launched(Ok(id)))
                &&& inputs.contains(InputView::Status(report))
                &&& actions == launch.push(ActionView::GetStatus(id)).push(self.watch(id))
            },
            SpawnStageView::Reporting(id, report) => {
                &&& self.background
                &&& inputs.contains(InputView::Launched(Ok(id)))
                &&& inputs.contains(InputView::Status(report))
                &&& actions == launch.push(ActionView::GetStatus(id)).push(self.watch(id)).push(
                    ActionView::SendEnd(self.end(Some(id), report.status, None)),
                )
            },
            SpawnStageView::Waiting(id) => {
                &&& !self.background
                &&& inputs.contains(InputView::Launched(Ok(id)))
                &&& actions == launch.push(self.wait(id))
            },
            SpawnStageView::Settling(id, result) => {
                &&& !self.background
                &&& inputs.contains(InputView::Launched(Ok(id)))
                &&& inputs.contains(InputView::Waited(result))
                &&& actions == launch.push(self.wait(id)).push(ActionView::GetStatus(id))
            },
            SpawnStageView::Concluding(id, report, result) => {
                &&& !self.background
                &&& inputs.contains(InputView::Launched(Ok(id)))
                &&& inputs.contains(InputView::Waited(result))
                &&& inputs.contains(InputView::Status(report))
                &&& actions == launch.push(self.wait(id)).push(ActionView::GetStatus(id)).push(
                    ActionView::SendEnd(self.end(Some(id), report.status, Some(result))),
                )
            },
            SpawnStageView::Closing(id, report, result) => {
                &&& !self.background
                &&& inputs.contains(InputView::Launched(Ok(id)))
                &&& inputs.contains(InputView::Waited(result))
                &&& inputs.contains(InputView::Status(report))
                &&& actions == launch.push(self.wait(id)).push(ActionView::GetStatus(id)).push(
                    ActionView::SendEnd(self.end(Some(id), report.status, Some(result))),
                ).push(ActionView::Shutdown(id))
            },
            SpawnStageView::Replying(success) => self.reports(
                overview,
                config,
                success,
                inputs,
                actions,
            ),
            SpawnStageView::Over => {
                ||| self.ended_unconfigured(overview, inputs, actions)
                ||| self.ended_unlaunched(overview, config, inputs, actions)
                ||| self.ended_with_reply(overview, config, inputs, actions)
            },
        }
    }
}

/// What was told stays told.
proof fn lemma_told_stays_told(inputs: Seq<InputView>, input: InputView)
    ensures
        inputs.push(input).contains(input),
        forall|told: InputView| #[trigger]
            inputs.contains(told) ==> inputs.push(input).contains(told),
{
    let longer = inputs.push(input);
    assert(longer[inputs.len() as int] == input);
    assert forall|told: InputView| #[trigger] inputs.contains(told) implies longer.contains(
        told,
    ) by {
        let i = choose|i: int| 0 <= i < inputs.len() && inputs[i] == told;
        assert(longer[i] == told);
    }
}

/// What a reply rests on stays told.
proof fn lemma_reports_stay<C>(
    plan: SpawnPlanView,
    overview: Seq<char>,
    config: C,
    success: bool,
    inputs: Seq<InputView>,
    input: InputView,
    actions: Seq<ActionView<C>>,
)
    requires
        plan.reports(overview, config, success, inputs, actions),
    ensures
        plan.reports(overview, config, success, inputs.push(input), actions),
{
    lemma_told_stays_told(inputs, input);
}

/// An input that a stage does not expect keeps to the script.
proof fn lemma_rest_keeps_to_its_script<C>(
    plan: SpawnPlanView,
    overview: Seq<char>,
    config: C,
    inputs: Seq<InputView>,
    stage: SpawnStageView<C>,
    actions: Seq<ActionView<C>>,
    input: InputView,
)
    requires
        plan.so_far(overview, config, inputs, stage, actions),
    ensures
        plan.so_far(overview, config, inputs.push(input), stage, actions),
{
    lemma_told_stays_told(inputs, input);
    match stage {
        SpawnStageView::Replying(success) => {
            lemma_reports_stay(plan, overview, config, success, inputs, input, actions);
        },
        SpawnStageView::Over => {
            if plan.ended_with_reply(overview, config, inputs, actions) {
                let (text, success): (Result<Seq<char>, Seq<char>>, bool) = choose|
                    text: Result<Seq<char>, Seq<char>>,
                    success: bool,
                |
                    {
                        &&& actions.len() > 0
                        &&& actions.last() == ActionView::<C>::Finish(
                            #[trigger] crate::effect::ending(text, success),
                        )
                        &&& plan.reports(overview, config, success, inputs, actions.drop_last())
                    };
                lemma_reports_stay(
                    plan,
                    overview,
                    config,
                    success,
                    inputs,
                    input,
                    actions.drop_last(),
                );
            }
        },
        _ => {},
    }
}

/// One step keeps to the script.
proof fn lemma_step_keeps_to_its_script<C>(
    plan: SpawnPlanView,
    overview: Seq<char>,
    config: C,
    inputs: Seq<InputView>,
    stage: SpawnStageView<C>,
    actions: Seq<ActionView<C>>,
    input: InputView,
)
    requires
        plan.so_far(overview, config, inputs, stage, actions),
    ensures
        ({
            let (after, action) = plan.next(stage, input);
            &&& action is None ==> after == stage
            &&& action matches Some(a) ==> plan.so_far(
                overview,
                config,
                inputs.push(input),
                after,
                actions.push(a),
            )
        }),
{
    lemma_told_stays_told(inputs, input);
    let (after, action) = plan.next(stage, input);
    let told = inputs.push(input);
    if let Some(a) = action {
        let longer = actions.push(a);
        match (stage, input) {
            (SpawnStageView::Announcing(_), _) => {
                assert(longer =~= plan.opening::<C>(overview));
            },
            (SpawnStageView::Configuring(_), InputView::PoliciesTried { sandbox, approval }) => {
                if let Some(answer) = crate::config::policy_refusal(sandbox, approval) {
                    assert(plan.ended_unconfigured(overview, told, longer));
                }
            },
            (SpawnStageView::Failing(e), _) => {
                assert(a == ActionView::<C>::Finish(OutcomeView::Error(crate::error::spawn_failure(e))));
                assert(plan.ended_unlaunched(overview, config, told, longer));
            },
            (SpawnStageView::Reporting(id, report), _) => {
                assert(longer == plan.background_script(overview, config, id, report));
            },
            (SpawnStageView::Closing(id, report, result), _) => {
                assert(longer == plan.synchronous_script(overview, config, id, report, result));
            },
            (SpawnStageView::Replying(success), InputView::Serialized(text)) => {
                lemma_reports_stay(plan, overview, config, success, inputs, input, actions);
                assert(longer.drop_last() =~= actions);
                assert(longer.last() == ActionView::<C>::Finish(crate::effect::ending(text, success)));
                assert(plan.ended_with_reply(overview, config, told, longer));
            },
            _ => {},
        }
    }
}

/// Whatever it is told, and in whatever order, a spawn keeps to its script:
/// what it has asked for is exactly what its stage stands for. When it is
/// over, it has gone one of four ways: a policy refused; no agent; an agent in
/// the background, watched and reported; or an agent waited for, reported and
/// shut down.
pub proof fn law_spawn_keeps_to_its_script<C>(
    plan: SpawnPlanView,
    overview: Seq<char>,
    config: C,
    inputs: Seq<InputView>,
)
    ensures
        ({
            let (stage, actions) = plan.run(overview, config, inputs);
            plan.so_far(overview, config, inputs, stage, actions)
        }),
    decreases inputs.len(),
{
    if inputs.len() > 0 {
        let earlier = inputs.drop_last();
        let (stage, actions) = plan.run(overview, config, earlier);
        law_spawn_keeps_to_its_script(plan, overview, config, earlier);
        lemma_step_keeps_to_its_script(
            plan,
            overview,
            config,
            earlier,
            stage,
            actions,
            inputs.last(),
        );
        lemma_rest_keeps_to_its_script(
            plan,
            overview,
            config,
            earlier,
            stage,
            actions,
            inputs.last(),
        );
        assert(earlier.push(inputs.last()) =~= inputs);
    }
}

/// The child runs under its own configuration: whatever a spawn is told, all
/// that it ever launches is an agent under the configuration that it began
/// with, with the prompt of its plan.
pub proof fn law_launch_is_as_planned<C>(
    plan: SpawnPlanView,
    overview: Seq<char>,
    config: C,
    inputs: Seq<InputView>,
)
    ensures
        forall|i: int|
            0 <= i < plan.run(overview, config, inputs).1.len() && (#[trigger] plan.run(
                overview,
                config,
                inputs,
            ).1[i]) is Launch ==> plan.run(overview, config, inputs).1[i] == (ActionView::Launch {
                config,
                prompt: plan.prompt,
            }),
    decreases inputs.len(),
{
    if inputs.len() > 0 {
        let earlier = inputs.drop_last();
        let (stage, actions) = plan.run(overview, config, earlier);
        law_launch_is_as_planned(plan, overview, config, earlier);
        law_spawn_keeps_to_its_script(plan, overview, config, earlier);
        let after = plan.run(overview, config, inputs).1;
        assert forall|i: int| 0 <= i < after.len() && (
        #[trigger] after[i]) is Launch implies after[i] == (ActionView::Launch {
            config,
            prompt: plan.prompt,
        }) by {
            if i < actions.len() {
                assert(after[i] == actions[i]);
            }
        }
    }
}

/// Once both policies may be set, a child is launched under the configuration
/// made for it: the read-only sandbox for every role that only reads, and the
/// turn's sandbox for a general agent.
pub proof fn law_child_is_launched_under_its_config<S: SettingTypes>(
    plan: SpawnPlanView,
    turn: TurnContext<S>,
    args: SpawnSubagentArgsView,
    read_only_policy: S::SandboxPolicy,
)
    ensures
        ({
            let config = crate::config::child_config(turn, args, plan.depth, read_only_policy);
            let (stage, action) = plan.next(
                SpawnStageView::Configuring(config),
                InputView::PoliciesTried { sandbox: Ok(()), approval: Ok(()) },
            );
            &&& action == Some(ActionView::Launch { config, prompt: plan.prompt })
            &&& args.role.read_only() ==> config.sandbox_policy == read_only_policy
            &&& !args.role.read_only() ==> config.sandbox_policy == turn.sandbox_policy
        }),
{
}

/// A launch is announced as over exactly once, and only a launch is.
pub proof fn law_every_launch_is_reported_once<C>(
    plan: SpawnPlanView,
    overview: Seq<char>,
    config: C,
    inputs: Seq<InputView>,
)
    requires
        plan.run(overview, config, inputs).0 is Over,
    ensures
        ({
            let actions = plan.run(overview, config, inputs).1;
            let launched = exists|i: int|
                0 <= i < actions.len() && (#[trigger] actions[i]) is Launch;
            if launched {
                exists|at: int|
                    {
                        &&& 0 <= at < actions.len()
                        &&& (#[trigger] actions[at]) is SendEnd
                        &&& forall|i: int|
                            0 <= i < actions.len() && i != at ==> !((
                            #[trigger] actions[i]) is SendEnd)
                    }
            } else {
                forall|i: int| 0 <= i < actions.len() ==> !((#[trigger] actions[i]) is SendEnd)
            }
        }),
{
    law_spawn_keeps_to_its_script(plan, overview, config, inputs);
    let actions = plan.run(overview, config, inputs).1;
    if plan.ended_unconfigured(overview, inputs, actions) {
        assert(actions.len() == 3);
    } else if plan.ended_unlaunched(overview, config, inputs, actions) {
        assert(actions.len() == 5);
        assert(actions[2] is Launch);
        assert(actions[3] is SendEnd);
    } else {
        let begun = actions.drop_last();
        let length: int = if plan.background {
            7
        } else {
            8
        };
        assert(begun.len() == length);
        assert(begun[2] == actions[2]);
        assert(actions[2] is Launch);
        assert(begun[5] == actions[5]);
        assert(actions[5] is SendEnd);
        assert forall|i: int| 0 <= i < actions.len() && i != 5 implies !((
        #[trigger] actions[i]) is SendEnd) by {
            if i < length {
                assert(begun[i] == actions[i]);
            }
        }
    }
}

/// No agent is left behind: once a spawn that did launch an agent is over,
/// that agent is being watched and was not shut down, if it runs in the
/// background, and otherwise was waited for and then shut down.
pub proof fn law_no_agent_is_left_behind<C>(
    plan: SpawnPlanView,
    overview: Seq<char>,
    config: C,
    inputs: Seq<InputView>,
)
    requires
        plan.run(overview, config, inputs).0 is Over,
        !plan.ended_unconfigured(overview, inputs, plan.run(overview, config, inputs).1),
        !plan.ended_unlaunched(overview, config, inputs, plan.run(overview, config, inputs).1),
    ensures
        ({
            let actions = plan.run(overview, config, inputs).1;
            exists|id: Seq<char>|
                {
                    &&& #[trigger] inputs.contains(InputView::Launched(Ok(id)))
                    &&& if plan.background {
                        &&& actions.contains(plan.watch::<C>(id))
                        &&& forall|i: int|
                            0 <= i < actions.len() ==> !((#[trigger] actions[i]) is Shutdown)
                    } else {
                        &&& actions.len() == 9
                        &&& actions[3] == plan.wait::<C>(id)
                        &&& actions[6] == ActionView::<C>::Shutdown(id)
                    }
                }
        }),
{
    law_spawn_keeps_to_its_script(plan, overview, config, inputs);
    let actions = plan.run(overview, config, inputs).1;
    assert(plan.ended_with_reply(overview, config, inputs, actions));
    let begun = actions.drop_last();
    if plan.background {
        let (id, report): (Seq<char>, StatusReportView) = choose|
            id: Seq<char>,
            report: StatusReportView,
        |
            {
                &&& inputs.contains(InputView::Launched(Ok(id)))
                &&& inputs.contains(InputView::Status(report))
                &&& begun == #[trigger] plan.background_script(overview, config, id, report)
            };
        assert(begun.len() == 7);
        assert(actions[4] == begun[4]);
        assert(actions[4] == plan.watch::<C>(id));
        assert forall|i: int| 0 <= i < actions.len() implies !((
        #[trigger] actions[i]) is Shutdown) by {
            if i < 7 {
                assert(begun[i] == actions[i]);
            }
        }
        assert(inputs.contains(InputView::Launched(Ok(id))));
    } else {
        let (id, report, result): (Seq<char>, StatusReportView, SubagentResultView) = choose|
            id: Seq<char>,
            report: StatusReportView,
            result: SubagentResultView,
        |
            {
                &&& inputs.contains(InputView::Launched(Ok(id)))
                &&& inputs.contains(InputView::Waited(result))
                &&& inputs.contains(InputView::Status(report))
                &&& begun == #[trigger] plan.synchronous_script(
                    overview,
                    config,
                    id,
                    report,
                    result,
                )
            };
        assert(begun.len() == 8);
        assert(actions[3] == begun[3]);
        assert(actions[6] == begun[6]);
        assert(inputs.contains(InputView::Launched(Ok(id))));
    }
}

/// The number of inputs that a spawn at the given stage can still take, at most.
pub open spec fn inputs_left<C>(stage: SpawnStageView<C>) -> nat {
    match stage {
        SpawnStageView::Announcing(_) => 8,
        SpawnStageView::Configuring(_) => 7,
        SpawnStageView::Launching => 6,
        SpawnStageView::Waiting(_) => 5,
        SpawnStageView::Settling(_, _) => 4,
        SpawnStageView::Checking(_) => 4,
        SpawnStageView::Concluding(_, _, _) => 3,
        SpawnStageView::Watching(_, _) => 3,
        SpawnStageView::Closing(_, _, _) => 2,
        SpawnStageView::Reporting(_, _) => 2,
        SpawnStageView::Failing(_) => 1,
        SpawnStageView::Replying(_) => 1,
        SpawnStageView::Over => 0,
    }
}

/// Every input that a spawn takes brings it nearer to its end; any other
/// input changes nothing; and a spawn that is over takes none.
pub proof fn law_spawn_makes_progress<C>(
    plan: SpawnPlanView,
    stage: SpawnStageView<C>,
    input: InputView,
)
    ensures
        plan.next(stage, input).1 is Some ==> inputs_left(plan.next(stage, input).0) < inputs_left(
            stage,
        ),
        plan.next(stage, input).1 is None ==> plan.next(stage, input).0 == stage,
        stage is Over ==> plan.next(stage, input).1 is None,
{
}

impl<C> SpawnStageView<C> {
    /// The inputs that a spawn at this stage waits for.
    pub open spec fn awaits(self, input: InputView) -> bool {
        match self {
            SpawnStageView::Announcing(_) => input is Sent,
            SpawnStageView::Configuring(_) => input is PoliciesTried,
            SpawnStageView::Launching => input is Launched,
            SpawnStageView::Failing(_) => input is Sent,
            SpawnStageView::Checking(_) => input is Status,
            SpawnStageView::Watching(_, _) => input is WatcherStarted,
            SpawnStageView::Reporting(_, _) => input is Sent,
            SpawnStageView::Waiting(_) => input is Waited,
            SpawnStageView::Settling(_, _) => input is Status,
            SpawnStageView::Concluding(_, _, _) => input is Sent,
            SpawnStageView::Closing(_, _, _) => input is ShutDown,
            SpawnStageView::Replying(_) => input is Serialized,
            SpawnStageView::Over => false,
        }
    }
}

/// A spawn takes every answer: an input that it waits for gives an action,
/// which ends the call exactly when the spawn is then over, and what answers
/// that action is waited for. While policies are tried, the spawn holds the
/// configuration that they belong to.
pub proof fn law_spawn_takes_every_answer<C>(
    plan: SpawnPlanView,
    stage: SpawnStageView<C>,
    input: InputView,
)
    ensures
        ({
            let (after, action) = plan.next(stage, input);
            &&& stage.awaits(input) <==> action is Some
            &&& action matches Some(a) ==> {
                &&& a is Finish <==> after is Over
                &&& a is TryPolicies <==> after is Configuring
                &&& forall|answer: InputView| #[trigger]
                    crate::effect::answers(a, answer) ==> after.awaits(answer)
            }
        }),
{
}

/// Whatever a spawn was told before, what answers the last thing that it asked
/// for is waited for, and if that was to try the policies, the spawn holds the
/// configuration that it began with.
pub proof fn law_spawn_waits_for_its_answer<C>(
    plan: SpawnPlanView,
    overview: Seq<char>,
    config: C,
    inputs: Seq<InputView>,
    answer: InputView,
)
    ensures
        ({
            let (stage, actions) = plan.run(overview, config, inputs);
            &&& actions.len() > 0
            &&& crate::effect::answers(actions.last(), answer) ==> stage.awaits(answer)
            &&& actions.last() is TryPolicies ==> stage == SpawnStageView::Configuring(config)
            &&& actions.last() is Finish <==> stage is Over
        }),
    decreases inputs.len(),
{
    if inputs.len() > 0 {
        let earlier = inputs.drop_last();
        law_spawn_waits_for_its_answer(plan, overview, config, earlier, answer);
        law_spawn_keeps_to_its_script(plan, overview, config, earlier);
        law_spawn_takes_every_answer(plan, plan.run(overview, config, earlier).0, inputs.last());
    }
}

/// A spawn asks for nine things at most, from its announcement to its end.
pub proof fn law_spawn_is_bounded<C>(
    plan: SpawnPlanView,
    overview: Seq<char>,
    config: C,
    inputs: Seq<InputView>,
)
    ensures
        ({
            let (stage, actions) = plan.run(overview, config, inputs);
            1 <= actions.len() && actions.len() + inputs_left(stage) <= 9
        }),
    decreases inputs.len(),
{
    if inputs.len() > 0 {
        law_spawn_is_bounded(plan, overview, config, inputs.drop_last());
        law_spawn_makes_progress(
            plan,
            plan.run(overview, config, inputs.drop_last()).0,
            inputs.last(),
        );
    }
}

/// A background spawn never waits for its agent, and no spawn waits longer
/// than the longest time there is.
pub proof fn law_spawn_waits_in_bounds<C>(
    call_id: Seq<char>,
    parent_thread_id: Seq<char>,
    depth: SubagentDepthContext,
    args: SpawnSubagentArgsView,
    stage: SpawnStageView<C>,
    input: InputView,
)
    ensures
        ({
            let plan = crate::spawn::plan_of(call_id, parent_thread_id, depth, args);
            plan.next(stage, input).1 matches Some(ActionView::Wait { timeout_ms, .. }) ==> {
                &&& !args.background
                &&& timeout_ms <= MAX_SUBAGENT_TIMEOUT_MS
            }
        }),
{
}

/// A synchronous spawn is marked as a success exactly when its agent was seen
/// to have completed: `input` is what ended the wait that gave the result.
pub proof fn law_success_means_completion<C>(
    plan: SpawnPlanView,
    id: Seq<char>,
    report: StatusReportView,
    wait: CompletionWaitView,
    input: WaitInputView,
    result: SubagentResultView,
    shutdown: Result<(), CodexErrView>,
)
    requires
        wait.next(input).1 == Some(WaitActionView::Return(result)),
    ensures
        ({
            let completed = input matches WaitInputView::Status(reading)
                && reading.status is Completed;
            plan.next(
                SpawnStageView::<C>::Closing(id, report, result),
                InputView::ShutDown(shutdown),
            ).0 == SpawnStageView::<C>::Replying(completed)
        }),
{
}

/// A spawn is refused exactly for want of room, for the roles, or for a blank task.
pub proof fn law_refusals_are_exactly_these(
    depth: SubagentDepthContext,
    parent: SubagentRole,
    args: SpawnSubagentArgsView,
)
    ensures
        crate::spawn::refusal(depth, parent, args) is None <==> {
            &&& depth.current < depth.max
            &&& parent.may_spawn(args.role, depth.current)
            &&& !text::blank(args.overview)
            &&& !text::blank(args.goal)
        },
        depth.current >= MAX_SUBAGENT_DEPTH || depth.current >= depth.max
            ==> crate::spawn::refusal(depth, parent, args) == Some(
            crate::spawn::depth_refusal(depth),
        ),
{
}

/// The roles and depths of a line of agents, in which each agent was spawned
/// by the one before it.
pub open spec fn delegation(line: Seq<(SubagentRole, SubagentDepthContext)>) -> bool {
    forall|i: int|
        0 <= i < line.len() - 1 ==> {
            &&& (#[trigger] line[i]).1.has_room()
            &&& line[i + 1].1 == line[i].1.deeper()
            &&& line[i].0.may_spawn(line[i + 1].0, line[i].1.current)
        }
}

/// An agent that was spawned stands in a delegation behind its parent: a
/// child that is not refused takes the next place in the line.
pub proof fn law_spawn_extends_the_line(
    line: Seq<(SubagentRole, SubagentDepthContext)>,
    args: SpawnSubagentArgsView,
)
    requires
        line.len() > 0,
        delegation(line),
        crate::spawn::refusal(line.last().1, line.last().0, args) is None,
    ensures
        delegation(line.push((args.role, line.last().1.deeper()))),
{
    let longer = line.push((args.role, line.last().1.deeper()));
    assert forall|i: int| 0 <= i < longer.len() - 1 implies {
        &&& (#[trigger] longer[i]).1.has_room()
        &&& longer[i + 1].1 == longer[i].1.deeper()
        &&& longer[i].0.may_spawn(longer[i + 1].0, longer[i].1.current)
    } by {
        assert(longer[i] == line[i]);
        if i < line.len() - 1 {
            assert(longer[i + 1] == line[i + 1]);
        }
    }
}

/// A child takes its place in the line with it: the turns of an agent that
/// runs under a child's configuration have the child's depth and role.
pub proof fn law_child_keeps_its_place<S: SettingTypes>(
    turn: TurnContext<S>,
    args: SpawnSubagentArgsView,
    child_depth: SubagentDepthContext,
    read_only_policy: S::SandboxPolicy,
)
    ensures
        ({
            let config = crate::config::child_config(turn, args, child_depth, read_only_policy);
            &&& crate::spawn::depth_of(config.subagent_depth) == child_depth
            &&& crate::spawn::role_of(config.subagent_role) == args.role
        }),
{
}

/// Delegation is controlled: a line of agents is never longer than the depth
/// limit allows, every agent sits as deep as its place in the line, and what
/// stands behind an agent that only reads is an analyst.
pub proof fn law_delegation_is_controlled(line: Seq<(SubagentRole, SubagentDepthContext)>)
    requires
        line.len() > 0,
        delegation(line),
    ensures
        line.len() <= MAX_SUBAGENT_DEPTH + 1,
        forall|i: int|
            0 <= i < line.len() ==> (#[trigger] line[i]).1.current == line[0].1.current + i,
        forall|i: int|
            1 <= i < line.len() ==> (#[trigger] line[i]).1.current <= MAX_SUBAGENT_DEPTH,
        forall|i: int, j: int|
            #![trigger line[i], line[j]]
            0 <= i < j < line.len() && line[i].0.read_only() ==> line[j].0
                == SubagentRole::Analyse,
        forall|i: int|
            1 <= i < line.len() && (#[trigger] line[i]).1.current == MAX_SUBAGENT_DEPTH
                ==> line[i].0 == SubagentRole::Analyse,
    decreases line.len(),
{
    if line.len() > 1 {
        let shorter = line.drop_last();
        let n = line.len() - 1;
        assert(delegation(shorter)) by {
            assert forall|i: int| 0 <= i < shorter.len() - 1 implies {
                &&& (#[trigger] shorter[i]).1.has_room()
                &&& shorter[i + 1].1 == shorter[i].1.deeper()
                &&& shorter[i].0.may_spawn(shorter[i + 1].0, shorter[i].1.current)
            } by {
                assert(line[i].1.has_room());
            }
        }
        law_delegation_is_controlled(shorter);
        let parent = line[n - 1];
        assert(parent.1.has_room());
        assert(shorter[n - 1] == parent);
        assert(parent.0.may_spawn(line[n].0, parent.1.current));
        assert forall|i: int| 0 <= i < line.len() implies (#[trigger] line[i]).1.current
            == line[0].1.current + i by {
            if i < n {
                assert(shorter[i] == line[i]);
            }
        }
        assert forall|i: int| 1 <= i < line.len() implies (#[trigger] line[i]).1.current
            <= MAX_SUBAGENT_DEPTH by {
            if i < n {
                assert(shorter[i] == line[i]);
            }
        }
        assert forall|i: int, j: int|
            #![trigger line[i], line[j]]
            0 <= i < j < line.len() && line[i].0.read_only() implies line[j].0
            == SubagentRole::Analyse by {
            assert(shorter[i] == line[i]);
            if j < n {
                assert(shorter[j] == line[j]);
            } else if i < n - 1 {
                assert(shorter[n - 1].0 == SubagentRole::Analyse);
            }
        }
        assert forall|i: int|
            1 <= i < line.len() && (#[trigger] line[i]).1.current
                == MAX_SUBAGENT_DEPTH implies line[i].0 == SubagentRole::Analyse by {
            if i < n {
                assert(shorter[i] == line[i]);
            }
        }
    }
}

} // verus!
