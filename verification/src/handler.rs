//! The handler of the subagent tools: which call is whose, and how it goes on.
use vstd::prelude::*;
use vstd::string::*;

use crate::agent::ThreadId;
use crate::args::{GetSubagentStatusArgs, SpawnSubagentArgs, WaitSubagentArgs};
use crate::config::{Config, SettingTypes, TurnContext};
use crate::effect::{Action, ActionView, Input, InputView};
use crate::error::{message, FunctionCallError, FunctionCallErrorView};
use crate::role::SubagentRole;
use crate::spawn::{spawn_subagent, SpawnCall, SpawnStage, SpawnStageView};
use crate::tools::{
    close_subagent, get_subagent_status, wait_subagent, CloseCall, CloseCallView, StatusCall,
    WaitCall,
};

verus! {

/// What kind of tool a handler handles.
#[derive(Debug, Clone, Copy, PartialEq, Eq, Structural)]
pub enum ToolKind {
    Function,
}

/// What a tool call carries.
#[derive(Debug, PartialEq, Eq)]
pub enum ToolPayload {
    /// A function call, with its arguments as text.
    Function { arguments: String },
    /// Any other payload.
    Other,
}

/// A tool call, before anyone has looked at it.
#[derive(Debug, PartialEq, Eq)]
pub struct ToolInvocation {
    pub tool_name: String,
    pub payload: ToolPayload,
}

/// A call of one of the subagent tools, with its arguments as text.
#[derive(Debug, PartialEq, Eq)]
pub enum SubagentCall {
    Spawn(String),
    GetStatus(String),
    Wait(String),
    Close(String),
}

/// The subagent tool of the given name, called with the given arguments.
pub open spec fn call_of(tool_name: Seq<char>, arguments: String) -> Option<SubagentCall> {
    if tool_name == "spawn_subagent"@ {
        Some(SubagentCall::Spawn(arguments))
    } else if tool_name == "get_subagent_status"@ {
        Some(SubagentCall::GetStatus(arguments))
    } else if tool_name == "wait_subagent"@ {
        Some(SubagentCall::Wait(arguments))
    } else if tool_name == "close_subagent"@ {
        Some(SubagentCall::Close(arguments))
    } else {
        None
    }
}

/// Handles the subagent tools.
#[derive(Debug, Clone, Copy, PartialEq, Eq, Structural)]
pub struct SubagentHandler;

impl SubagentHandler {
    /// The kind of tool: a function.
    pub fn kind(&self) -> (kind: ToolKind)
        ensures
            kind == ToolKind::Function,
    {
        ToolKind::Function
    }

    /// Whether a payload is one that the handler can take: a function call.
    pub fn matches_kind(&self, payload: &ToolPayload) -> (b: bool)
        ensures
            b == (payload is Function),
    {
        matches!(payload, ToolPayload::Function { .. })
    }

    /// Finds the tool that is called. A payload that is no function call is
    /// turned down before the name is looked at.
    pub fn handle(&self, invocation: ToolInvocation) -> (r: Result<SubagentCall, FunctionCallError>)
        ensures
            match invocation.payload {
                ToolPayload::Function { arguments } => match call_of(
                    invocation.tool_name@,
                    arguments,
                ) {
                    Some(call) => r == Ok::<SubagentCall, FunctionCallError>(call),
                    None => r is Err && r->Err_0@ == FunctionCallErrorView::RespondToModel(
                        "unsupported subagent tool: "@ + invocation.tool_name@,
                    ),
                },
                ToolPayload::Other => r is Err && r->Err_0@
                    == FunctionCallErrorView::RespondToModel(
                    "subagent handler received unsupported payload"@,
                ),
            },
    {
        let arguments = match invocation.payload {
            ToolPayload::Function { arguments } => arguments,
            ToolPayload::Other => {
                return Err(
                    FunctionCallError::RespondToModel(
                        "subagent handler received unsupported payload".to_string(),
                    ),
                );
            },
        };
        let name = invocation.tool_name;
        if name == "spawn_subagent".to_string() {
            Ok(SubagentCall::Spawn(arguments))
        } else if name == "get_subagent_status".to_string() {
            Ok(SubagentCall::GetStatus(arguments))
        } else if name == "wait_subagent".to_string() {
            Ok(SubagentCall::Wait(arguments))
        } else if name == "close_subagent".to_string() {
            Ok(SubagentCall::Close(arguments))
        } else {
            Err(
                FunctionCallError::RespondToModel(
                    message("unsupported subagent tool: ", name.as_str()),
                ),
            )
        }
    }
}

/// Every subagent tool goes by one name, and by no other: no call is taken for
/// another tool's.
pub proof fn law_each_tool_has_its_name(tool_name: Seq<char>, arguments: String)
    ensures
        call_of(tool_name, arguments) matches Some(SubagentCall::Spawn(_)) <==> tool_name
            == "spawn_subagent"@,
        call_of(tool_name, arguments) matches Some(SubagentCall::GetStatus(_)) <==> tool_name
            == "get_subagent_status"@,
        call_of(tool_name, arguments) matches Some(SubagentCall::Wait(_)) <==> tool_name
            == "wait_subagent"@,
        call_of(tool_name, arguments) matches Some(SubagentCall::Close(_)) <==> tool_name
            == "close_subagent"@,
{
    reveal_strlit("spawn_subagent");
    reveal_strlit("get_subagent_status");
    reveal_strlit("wait_subagent");
    reveal_strlit("close_subagent");
    assert("spawn_subagent"@[0] == 's');
    assert("get_subagent_status"@[0] == 'g');
    assert("wait_subagent"@[0] == 'w');
    assert("close_subagent"@[0] == 'c');
}

/// A call of one of the subagent tools under way. `C` is the type of agent
/// configurations.
#[derive(Debug, PartialEq)]
pub enum ToolRun<C> {
    Spawn(SpawnCall<C>),
    GetStatus(StatusCall),
    Wait(WaitCall),
    Close(CloseCall),
}

impl<C> ToolRun<C> {
    /// The inputs that a call under way waits for.
    pub open spec fn awaits(self, input: InputView) -> bool {
        match self {
            ToolRun::Spawn(call) => call.stage@.awaits(input),
            ToolRun::GetStatus(call) => call.awaits(input),
            ToolRun::Wait(call) => call.awaits(input),
            ToolRun::Close(call) => call@.awaits(input),
        }
    }

    /// The call is over.
    pub open spec fn is_over(self) -> bool {
        match self {
            ToolRun::Spawn(call) => call.stage@ is Over,
            ToolRun::GetStatus(call) => call is Over,
            ToolRun::Wait(call) => call is Over,
            ToolRun::Close(call) => call@ is Over,
        }
    }

    /// What a call under way does on an input: what its own tool does.
    pub open spec fn follows(
        self,
        input: InputView,
        after: ToolRun<C>,
        action: Option<ActionView<C>>,
    ) -> bool {
        match (self, after) {
            (ToolRun::Spawn(a), ToolRun::Spawn(b)) => b.plan == a.plan && (b.stage@, action)
                == a.plan@.next(a.stage@, input),
            (ToolRun::GetStatus(a), ToolRun::GetStatus(b)) => (b, action) == a.next::<C>(input),
            (ToolRun::Wait(a), ToolRun::Wait(b)) => (b, action) == a.next::<C>(input),
            (ToolRun::Close(a), ToolRun::Close(b)) => (b@, action) == a@.next::<C>(input),
            _ => false,
        }
    }

    /// The configuration that a child is to run under, while a spawn has yet
    /// to launch it.
    pub fn config(&self) -> (config: Option<&C>)
        ensures
            config == (match self {
                ToolRun::Spawn(call) => match call.stage {
                    SpawnStage::Announcing(config) => Some(&config),
                    SpawnStage::Configuring(config) => Some(&config),
                    _ => None,
                },
                _ => None,
            }),
    {
        match self {
            ToolRun::Spawn(call) => call.config(),
            _ => None,
        }
    }

    /// Takes an input and says what to do next, if anything.
    pub fn step(self, input: Input) -> (r: (Self, Option<Action<C>>))
        ensures
            self.follows(input@, r.0, crate::effect::action_view(r.1)),
    {
        match self {
            ToolRun::Spawn(call) => {
                let (call, action) = call.step(input);
                (ToolRun::Spawn(call), action)
            },
            ToolRun::GetStatus(call) => {
                let (call, action) = call.step(input);
                (ToolRun::GetStatus(call), action)
            },
            ToolRun::Wait(call) => {
                let (call, action) = call.step(input);
                (ToolRun::Wait(call), action)
            },
            ToolRun::Close(call) => {
                let (call, action) = call.step(input);
                (ToolRun::Close(call), action)
            },
        }
    }
}

/// A call of one of the subagent tools, with its arguments read. Where the
/// arguments hold an identifier, what the runtime makes of it stands beside them.
#[derive(Debug)]
pub enum ParsedCall {
    Spawn(SpawnSubagentArgs),
    GetStatus(GetSubagentStatusArgs, Result<ThreadId, String>),
    Wait(WaitSubagentArgs, Result<ThreadId, String>),
    Close(GetSubagentStatusArgs, Result<ThreadId, String>),
}

/// Starts a call: each tool does what its own function does.
pub fn start<S: SettingTypes>(
    call: ParsedCall,
    call_id: String,
    parent_thread_id: ThreadId,
    turn: TurnContext<S>,
    read_only_policy: S::SandboxPolicy,
) -> (r: Result<(ToolRun<Config<S>>, Action<Config<S>>), FunctionCallError>)
    ensures
        match call {
            ParsedCall::Spawn(args) => {
                let depth = crate::spawn::depth_of(turn.subagent_depth);
                let role = crate::spawn::role_of(turn.subagent_role);
                match crate::spawn::refusal(depth, role, args@) {
                    Some(answer) => r is Err && r->Err_0@ == answer,
                    None => {
                        let plan = crate::spawn::plan_of(
                            call_id@,
                            parent_thread_id@,
                            depth,
                            args@,
                        );
                        let config = crate::config::child_config(
                            turn,
                            args@,
                            depth.deeper(),
                            read_only_policy,
                        );
                        &&& r is Ok
                        &&& r->Ok_0.0 matches ToolRun::Spawn(started)
                        &&& started.plan@ == plan
                        &&& started.stage@ == SpawnStageView::Announcing(config)
                        &&& r->Ok_0.1@ == ActionView::<Config<S>>::SendBegin(
                            plan.begin(args@.overview),
                        )
                    },
                }
            },
            ParsedCall::GetStatus(args, Ok(id)) => {
                &&& r is Ok
                &&& r->Ok_0.0 == ToolRun::<Config<S>>::GetStatus(StatusCall::Reading)
                &&& r->Ok_0.1@ == ActionView::<Config<S>>::GetStatus(id@)
            },
            ParsedCall::Wait(args, Ok(id)) => {
                &&& r is Ok
                &&& r->Ok_0.0 == ToolRun::<Config<S>>::Wait(WaitCall::Waiting)
                &&& r->Ok_0.1@ == (ActionView::<Config<S>>::Wait {
                    agent_id: id@,
                    timeout_ms: crate::args::timeout_for(args.timeout_ms),
                    role: SubagentRole::General,
                    depth: 1,
                })
            },
            ParsedCall::Close(args, Ok(id)) => {
                &&& r is Ok
                &&& r->Ok_0.0 matches ToolRun::Close(started)
                &&& started@ == CloseCallView::Reading(id@)
                &&& r->Ok_0.1@ == ActionView::<Config<S>>::GetStatus(id@)
            },
            ParsedCall::GetStatus(args, Err(reason)) => r is Err && r->Err_0@
                == crate::error::bad_agent_id(args.id@, reason@),
            ParsedCall::Wait(args, Err(reason)) => r is Err && r->Err_0@
                == crate::error::bad_agent_id(args.id@, reason@),
            ParsedCall::Close(args, Err(reason)) => r is Err && r->Err_0@
                == crate::error::bad_agent_id(args.id@, reason@),
        },
        r matches Ok(started) ==> forall|answer: InputView| #[trigger]
            crate::effect::answers(started.1@, answer) ==> started.0.awaits(answer),
{
    match call {
        ParsedCall::Spawn(args) => match spawn_subagent(
            call_id,
            parent_thread_id,
            turn,
            read_only_policy,
            args,
        ) {
            Ok((call, action)) => Ok((ToolRun::Spawn(call), action)),
            Err(e) => Err(e),
        },
        ParsedCall::GetStatus(args, reading) => match get_subagent_status(args, reading) {
            Ok((call, action)) => Ok((ToolRun::GetStatus(call), action)),
            Err(e) => Err(e),
        },
        ParsedCall::Wait(args, reading) => match wait_subagent(args, reading) {
            Ok((call, action)) => Ok((ToolRun::Wait(call), action)),
            Err(e) => Err(e),
        },
        ParsedCall::Close(args, reading) => match close_subagent(args, reading) {
            Ok((call, action)) => Ok((ToolRun::Close(call), action)),
            Err(e) => Err(e),
        },
    }
}

/// A call under way takes every answer: an input that it waits for gives an
/// action, which ends the call exactly when the call is then over, and what
/// answers that action is waited for.
pub proof fn law_calls_take_every_answer<C>(
    run: ToolRun<C>,
    input: InputView,
    after: ToolRun<C>,
    action: Option<ActionView<C>>,
)
    requires
        run.follows(input, after, action),
    ensures
        run.awaits(input) <==> action is Some,
        action matches Some(a) ==> {
            &&& a is Finish <==> after.is_over()
            &&& a is TryPolicies ==> (after matches ToolRun::Spawn(call) && call.stage@ is Configuring)
            &&& forall|answer: InputView| #[trigger]
                crate::effect::answers(a, answer) ==> after.awaits(answer)
        },
{
    if let ToolRun::Spawn(call) = run {
        crate::lifecycle::law_spawn_takes_every_answer(call.plan@, call.stage@, input);
    }
}

} // verus!
