//! What each operation gives, written out in terms of what it is given.
use vstd::prelude::*;

use crate::args::SpawnSubagentArgsView;
use crate::config::{SettingTypes, TurnContext};
use crate::depth::{SubagentDepthContext, SubagentStrategy, MAX_SUBAGENT_DEPTH};
use crate::effect::OutcomeView;
use crate::error::{CodexErrKindView, CodexErrView, FunctionCallErrorView};
use crate::result::{SubagentResultStatus, SubagentResultView};
use crate::role::SubagentRole;
use crate::task::SubagentOutputType;
use crate::text;

verus! {

// Text.

/// A number below ten is written as its digit; any other number as the number
/// of its tens followed by the digit of its ones.
pub proof fn law_numerals(n: nat)
    ensures
        n < 10 ==> text::decimal(n) == seq![
            seq!['0', '1', '2', '3', '4', '5', '6', '7', '8', '9'][n as int],
        ],
        n >= 10 ==> text::decimal(n) == text::decimal(n / 10) + text::decimal(n % 10),
{
    if n >= 10 {
        assert(text::decimal(n) =~= text::decimal(n / 10) + text::decimal(n % 10));
    }
}

/// No part joins to nothing, one part to itself, and one part more adds the
/// separator and the part.
pub proof fn law_joining(parts: Seq<Seq<char>>, part: Seq<char>, separator: Seq<char>)
    ensures
        text::joined(Seq::empty(), separator) == Seq::<char>::empty(),
        text::joined(seq![part], separator) == part,
        parts.len() > 0 ==> text::joined(parts.push(part), separator) == text::joined(
            parts,
            separator,
        ) + separator + part,
{
    assert(seq![part].drop_first() =~= Seq::<Seq<char>>::empty());
    assert(text::joined(seq![part], separator) =~= part);
    if parts.len() > 0 {
        let longer = parts.push(part);
        assert(longer.drop_first() =~= parts.drop_first().push(part));
        assert(longer.drop_first().drop_last() =~= parts.drop_first());
        assert(longer.first() == parts.first());
        assert(text::joined(longer, separator) =~= text::joined(parts, separator) + separator
            + part);
    }
}

/// Text is blank exactly if it holds only tabs, line breaks and the other
/// control spaces, and the spaces of Unicode.
pub proof fn law_blank_text(s: Seq<char>)
    ensures
        text::blank(s) <==> forall|i: int|
            0 <= i < s.len() ==> {
                let n = #[trigger] s[i] as int;
                ||| 0x9 <= n <= 0xd
                ||| n == 0x20
                ||| n == 0x85
                ||| n == 0xa0
                ||| n == 0x1680
                ||| 0x2000 <= n <= 0x200a
                ||| n == 0x2028
                ||| n == 0x2029
                ||| n == 0x202f
                ||| n == 0x205f
                ||| n == 0x3000
            },
{
}

// Names.

/// Roles go by the names of their variants.
pub proof fn law_role_names(role: SubagentRole)
    ensures
        role == SubagentRole::General ==> role.label() == "General"@,
        role == SubagentRole::Review ==> role.label() == "Review"@,
        role == SubagentRole::Analyse ==> role.label() == "Analyse"@,
        role == SubagentRole::Plan ==> role.label() == "Plan"@,
{
}

/// Strategies go by the names of their variants.
pub proof fn law_strategy_names(strategy: SubagentStrategy)
    ensures
        strategy == SubagentStrategy::Orchestrate ==> strategy.label() == "Orchestrate"@,
        strategy == SubagentStrategy::Balance ==> strategy.label() == "Balance"@,
        strategy == SubagentStrategy::Execute ==> strategy.label() == "Execute"@,
        strategy == SubagentStrategy::Terminal ==> strategy.label() == "Terminal"@,
{
}

/// Output types go by the names of their variants.
pub proof fn law_output_type_names(output_type: SubagentOutputType)
    ensures
        output_type == SubagentOutputType::Report ==> output_type.label() == "Report"@,
        output_type == SubagentOutputType::Diff ==> output_type.label() == "Diff"@,
        output_type == SubagentOutputType::Code ==> output_type.label() == "Code"@,
        output_type == SubagentOutputType::Plan ==> output_type.label() == "Plan"@,
        output_type == SubagentOutputType::Text ==> output_type.label() == "Text"@,
{
}

/// Result statuses go by the names of their variants.
pub proof fn law_status_names(status: SubagentResultStatus)
    ensures
        status == SubagentResultStatus::Success ==> status.label() == "Success"@,
        status == SubagentResultStatus::Partial ==> status.label() == "Partial"@,
        status == SubagentResultStatus::Failed ==> status.label() == "Failed"@,
        status == SubagentResultStatus::TimedOut ==> status.label() == "TimedOut"@,
        status == SubagentResultStatus::Cancelled ==> status.label() == "Cancelled"@,
{
}

/// What a model is shown of a result is the result's own status, output and round.
pub proof fn law_results_are_shown_whole(result: SubagentResultView)
    ensures
        ({
            let shown = crate::result::output_of(result);
            &&& result.status == SubagentResultStatus::Success ==> shown.status == "Success"@
            &&& result.status == SubagentResultStatus::Partial ==> shown.status == "Partial"@
            &&& result.status == SubagentResultStatus::Failed ==> shown.status == "Failed"@
            &&& result.status == SubagentResultStatus::TimedOut ==> shown.status == "TimedOut"@
            &&& result.status == SubagentResultStatus::Cancelled ==> shown.status == "Cancelled"@
            &&& shown.output == result.output
            &&& shown.round == result.round
        }),
{
}

// Roles and depths.

/// Below depth 3 every role may spawn an analyst, and at depths 0 and 1 a
/// general agent may spawn any role; nothing else may be spawned. The roles
/// that may be spawned are listed in the order general, review, analyse, plan.
pub proof fn law_spawning_rules(parent: SubagentRole, child: SubagentRole, depth: u8)
    ensures
        parent.read_only() <==> parent == SubagentRole::Review || parent == SubagentRole::Analyse
            || parent == SubagentRole::Plan,
        child == SubagentRole::Analyse ==> (parent.may_spawn(child, depth) <==> depth < 3),
        child != SubagentRole::Analyse && parent == SubagentRole::General ==> (parent.may_spawn(
            child,
            depth,
        ) <==> depth < 2),
        child != SubagentRole::Analyse && parent != SubagentRole::General ==> !parent.may_spawn(
            child,
            depth,
        ),
        parent == SubagentRole::General && depth < 2 ==> parent.child_roles(depth) == seq![
            SubagentRole::General,
            SubagentRole::Review,
            SubagentRole::Analyse,
            SubagentRole::Plan,
        ],
        parent == SubagentRole::General && depth == 2 ==> parent.child_roles(depth) == seq![
            SubagentRole::Analyse,
        ],
        parent != SubagentRole::General && depth < 3 ==> parent.child_roles(depth) == seq![
            SubagentRole::Analyse,
        ],
        depth >= 3 ==> parent.child_roles(depth) == Seq::<SubagentRole>::empty(),
{
}

/// There is room below an agent exactly while it sits above its own maximum
/// and above depth 3; its child sits one level deeper, under the same maximum.
/// The strategy goes by the depth alone, and the tag shows depth and maximum.
pub proof fn law_depth_rules(ctx: SubagentDepthContext)
    ensures
        MAX_SUBAGENT_DEPTH == 3,
        ctx.has_room() <==> ctx.current < ctx.max && ctx.current < 3,
        ctx.current < 255 ==> ctx.deeper().current == ctx.current + 1,
        ctx.deeper().max == ctx.max,
        ctx.current == 0 ==> SubagentStrategy::at(ctx.current) == SubagentStrategy::Orchestrate,
        ctx.current == 1 ==> SubagentStrategy::at(ctx.current) == SubagentStrategy::Balance,
        ctx.current == 2 ==> SubagentStrategy::at(ctx.current) == SubagentStrategy::Execute,
        ctx.current >= 3 ==> SubagentStrategy::at(ctx.current) == SubagentStrategy::Terminal,
        ctx.tag() == "[DEPTH] "@ + text::decimal(ctx.current as nat) + "/"@ + text::decimal(
            ctx.max as nat,
        ),
{
}

/// A turn without a depth is the main agent's, and one without a role is
/// general; a turn that notes them has what it notes.
pub proof fn law_place_of_a_turn(depth: SubagentDepthContext, role: SubagentRole)
    ensures
        crate::spawn::depth_of(None) == (SubagentDepthContext { current: 0, max: 3 }),
        crate::spawn::depth_of(Some(depth)) == depth,
        crate::spawn::role_of(None) == SubagentRole::General,
        crate::spawn::role_of(Some(role)) == role,
{
}

/// A wait lasts five minutes where nothing was asked for, and otherwise as
/// long as was asked for, up to thirty minutes.
pub proof fn law_timeouts(ms: u64)
    ensures
        crate::args::timeout_for(None) == 300_000,
        ms <= 1_800_000 ==> crate::args::timeout_for(Some(ms)) == ms,
        ms > 1_800_000 ==> crate::args::timeout_for(Some(ms)) == 1_800_000,
        crate::args::DEFAULT_SUBAGENT_TIMEOUT_MS == 300_000,
        crate::args::MAX_SUBAGENT_TIMEOUT_MS == 1_800_000,
{
}

// Errors.

/// A failed spawn is answered in the runtime's words, unless there is no agent
/// manager.
pub proof fn law_spawn_failures(message: Seq<char>, id: Seq<char>)
    ensures
        crate::error::spawn_failure(
            (CodexErrView { kind: CodexErrKindView::UnsupportedOperation, message }),
        ) == FunctionCallErrorView::RespondToModel("Subagent manager unavailable"@),
        crate::error::spawn_failure(
            (CodexErrView { kind: CodexErrKindView::ThreadNotFound(id), message }),
        ) == FunctionCallErrorView::RespondToModel("Subagent spawn failed: "@ + message),
        crate::error::spawn_failure(
            (CodexErrView { kind: CodexErrKindView::InternalAgentDied, message }),
        ) == FunctionCallErrorView::RespondToModel("Subagent spawn failed: "@ + message),
        crate::error::spawn_failure(
            (CodexErrView { kind: CodexErrKindView::Other, message }),
        ) == FunctionCallErrorView::RespondToModel("Subagent spawn failed: "@ + message),
{
}

/// A failed operation is answered with the thread that was not found, with the
/// agent that is closed, with the want of a manager, or in the runtime's words.
pub proof fn law_operation_failures(agent: Seq<char>, message: Seq<char>, id: Seq<char>)
    ensures
        crate::error::operation_failure(
            agent,
            (CodexErrView { kind: CodexErrKindView::ThreadNotFound(id), message }),
        ) == FunctionCallErrorView::RespondToModel("Subagent with id "@ + id + " not found"@),
        crate::error::operation_failure(
            agent,
            (CodexErrView { kind: CodexErrKindView::InternalAgentDied, message }),
        ) == FunctionCallErrorView::RespondToModel("Subagent with id "@ + agent + " is closed"@),
        crate::error::operation_failure(
            agent,
            (CodexErrView { kind: CodexErrKindView::UnsupportedOperation, message }),
        ) == FunctionCallErrorView::RespondToModel("Subagent manager unavailable"@),
        crate::error::operation_failure(
            agent,
            (CodexErrView { kind: CodexErrKindView::Other, message }),
        ) == FunctionCallErrorView::RespondToModel("Subagent operation failed: "@ + message),
{
}

/// An identifier that names no thread is answered with itself and the reason.
pub proof fn law_bad_identifiers(id: Seq<char>, reason: Seq<char>)
    ensures
        crate::error::bad_agent_id(id, reason) == FunctionCallErrorView::RespondToModel(
            "Invalid agent id "@ + id + ": "@ + reason,
        ),
{
}

/// A policy that may not be set is answered with the reason, the sandbox
/// policy before the approval policy; two that may be set are not refused.
pub proof fn law_policy_refusals(reason: Seq<char>, approval: Result<(), Seq<char>>)
    ensures
        crate::config::policy_refusal(Err(reason), approval) == Some(
            FunctionCallErrorView::RespondToModel("Invalid sandbox policy: "@ + reason),
        ),
        crate::config::policy_refusal(Ok(()), Err(reason)) == Some(
            FunctionCallErrorView::RespondToModel("Invalid approval policy: "@ + reason),
        ),
        crate::config::policy_refusal(Ok(()), Ok(())) is None,
{
}

/// A call whose reply was put into text ends with exactly that text and its
/// mark; one whose reply was not ends the turn.
pub proof fn law_endings(content: Seq<char>, reason: Seq<char>, success: bool)
    ensures
        crate::effect::ending(Ok(content), success) == (OutcomeView::Output {
            content,
            success: Some(success),
            content_items: None,
        }),
        crate::effect::ending(Err(reason), success) == OutcomeView::Error(
            FunctionCallErrorView::Fatal("Failed to serialize result: "@ + reason),
        ),
{
}

// The prompt.

/// A line, where it is wanted, and nothing where it is not.
pub open spec fn if_wanted(wanted: bool, line: Seq<char>) -> Seq<char> {
    if wanted {
        line
    } else {
        Seq::empty()
    }
}

/// A prompt, from its first character to its last, whatever the role: tag,
/// role and overview; goal; requirements with "; " between them, if any;
/// output; context paths with ", " between them, if any; and the optional
/// fields that were given, in this order and under these labels.
pub proof fn law_prompt_line_by_line(args: SpawnSubagentArgsView, depth: SubagentDepthContext)
    ensures
        ({
            let numbers = text::decimal(depth.current as nat) + "/"@ + text::decimal(
                depth.max as nat,
            );
            let tags = "[DEPTH] "@ + numbers + "\n"@ + ("[ROLE] "@ + args.role.label() + "\n"@)
                + "[OVERVIEW] "@ + args.overview + "\n\n"@;
            let goal = "**Goal**: "@ + args.goal + "\n"@;
            let requirements = if_wanted(
                args.requirements.len() > 0,
                "**Requirements**: "@ + text::joined(args.requirements, "; "@) + "\n"@,
            );
            let output = "**Output**: "@ + args.output_type.label() + "\n"@;
            let context = if_wanted(
                args.context_paths.len() > 0,
                "**Context**: "@ + text::joined(args.context_paths, ", "@) + "\n"@,
            );
            let report = if_wanted(
                args.report_path is Some,
                "**report_path**: "@ + args.report_path->0 + "\n"@,
            );
            let plan = if_wanted(
                args.plan_dir is Some,
                "**plan_dir**: "@ + args.plan_dir->0 + "\n"@,
            );
            let session = if_wanted(
                args.session_id is Some,
                "**SESSION_ID**: "@ + args.session_id->0 + "\n"@,
            );
            let extra = if_wanted(
                args.additional_context is Some,
                "\n"@ + args.additional_context->0 + "\n"@,
            );
            crate::prompt::prompt_text(args, depth) == tags + ("## Task\n"@ + goal + requirements
                + output + context) + (report + plan + session + extra)
        }),
{
    lemma_prompt_tags(args, depth);
}

/// The first lines of a prompt.
proof fn lemma_prompt_tags(args: SpawnSubagentArgsView, depth: SubagentDepthContext)
    ensures
        crate::prompt::prompt_header(args, depth) == "[DEPTH] "@ + (text::decimal(
            depth.current as nat,
        ) + "/"@ + text::decimal(depth.max as nat)) + "\n"@ + ("[ROLE] "@ + args.role.label()
            + "\n"@) + "[OVERVIEW] "@ + args.overview + "\n\n"@,
{
    let numbers = text::decimal(depth.current as nat) + "/"@ + text::decimal(depth.max as nat);
    assert(Seq::<char>::empty() + depth.tag() =~= "[DEPTH] "@ + numbers);
}

/// What stands between the parts of a text does not depend on how the parts
/// are put together.
proof fn lemma_regroup(
    header: Seq<char>,
    front: Seq<char>,
    part: Seq<char>,
    back: Seq<char>,
    end: Seq<char>,
)
    ensures
        header + (front + part + back) + end == (header + front) + part + (back + end),
        header + (front + Seq::empty() + back) + end == (header + front) + (back + end),
{
}

/// Requirements add one line to a prompt and change nothing else in it, and so
/// do context paths: each list under its own label, in its order, and with its
/// own separator.
pub proof fn law_lists_add_their_lines(args: SpawnSubagentArgsView, depth: SubagentDepthContext)
    ensures
        args.requirements.len() > 0 ==> exists|before: Seq<char>, after: Seq<char>|
            {
                let bare = SpawnSubagentArgsView { requirements: Seq::empty(), ..args };
                &&& crate::prompt::prompt_text(bare, depth) == #[trigger] (before + after)
                &&& crate::prompt::prompt_text(args, depth) == before + ("**Requirements**: "@
                    + text::joined(args.requirements, "; "@) + "\n"@) + after
            },
        args.context_paths.len() > 0 ==> exists|before: Seq<char>, after: Seq<char>|
            {
                let bare = SpawnSubagentArgsView { context_paths: Seq::empty(), ..args };
                &&& crate::prompt::prompt_text(bare, depth) == #[trigger] (before + after)
                &&& crate::prompt::prompt_text(args, depth) == before + ("**Context**: "@
                    + text::joined(args.context_paths, ", "@) + "\n"@) + after
            },
{
    if args.requirements.len() > 0 {
        lemma_requirements_add_their_line(args, depth);
    }
    if args.context_paths.len() > 0 {
        lemma_context_adds_its_line(args, depth);
    }
}

/// What the requirements add to a prompt.
proof fn lemma_requirements_add_their_line(
    args: SpawnSubagentArgsView,
    depth: SubagentDepthContext,
)
    requires
        args.requirements.len() > 0,
    ensures
        exists|before: Seq<char>, after: Seq<char>|
            {
                let bare = SpawnSubagentArgsView { requirements: Seq::empty(), ..args };
                &&& crate::prompt::prompt_text(bare, depth) == #[trigger] (before + after)
                &&& crate::prompt::prompt_text(args, depth) == before + ("**Requirements**: "@
                    + text::joined(args.requirements, "; "@) + "\n"@) + after
            },
{
    let bare = SpawnSubagentArgsView { requirements: Seq::empty(), ..args };
    let header = crate::prompt::prompt_header(args, depth);
    let options = crate::prompt::prompt_options(args);
    let front = "## Task\n"@ + crate::prompt::line("**Goal**: "@, args.goal);
    let part = "**Requirements**: "@ + text::joined(args.requirements, "; "@) + "\n"@;
    let output = crate::prompt::line("**Output**: "@, args.output_type.label());
    let context = crate::prompt::list_line("**Context**: "@, args.context_paths, ", "@);
    lemma_sum(front + part, output, context);
    lemma_sum(front + Seq::empty(), output, context);
    lemma_regroup(header, front, part, output + context, options);
    let (before, after) = (header + front, (output + context) + options);
    assert(crate::prompt::prompt_task(args) == front + part + output + context);
    assert(crate::prompt::prompt_task(bare) == front + Seq::empty() + output + context);
    assert(crate::prompt::prompt_text(bare, depth) == before + after);
    assert(crate::prompt::prompt_text(args, depth) == before + part + after);
}

/// What the context paths add to a prompt.
proof fn lemma_context_adds_its_line(args: SpawnSubagentArgsView, depth: SubagentDepthContext)
    requires
        args.context_paths.len() > 0,
    ensures
        exists|before: Seq<char>, after: Seq<char>|
            {
                let bare = SpawnSubagentArgsView { context_paths: Seq::empty(), ..args };
                &&& crate::prompt::prompt_text(bare, depth) == #[trigger] (before + after)
                &&& crate::prompt::prompt_text(args, depth) == before + ("**Context**: "@
                    + text::joined(args.context_paths, ", "@) + "\n"@) + after
            },
{
    let bare = SpawnSubagentArgsView { context_paths: Seq::empty(), ..args };
    let header = crate::prompt::prompt_header(args, depth);
    let options = crate::prompt::prompt_options(args);
    let front = "## Task\n"@ + crate::prompt::line("**Goal**: "@, args.goal)
        + crate::prompt::list_line("**Requirements**: "@, args.requirements, "; "@)
        + crate::prompt::line("**Output**: "@, args.output_type.label());
    let part = "**Context**: "@ + text::joined(args.context_paths, ", "@) + "\n"@;
    lemma_sum(header, front, part);
    lemma_sum(header, front, Seq::empty());
    let (before, after) = (header + front, options);
    assert(crate::prompt::prompt_task(args) == front + part);
    assert(crate::prompt::prompt_task(bare) == front + Seq::empty());
    assert(before + Seq::empty() =~= before);
    assert(crate::prompt::prompt_text(bare, depth) == before + after);
    assert(crate::prompt::prompt_text(args, depth) == before + part + after);
}

/// Three texts in a row, put together in either order.
proof fn lemma_sum(a: Seq<char>, b: Seq<char>, c: Seq<char>)
    ensures
        a + b + c == a + (b + c),
{
    assert(a + b + c =~= a + (b + c));
}

// The configuration.

/// A child runs under its turn's settings, one by one, with its own depth and
/// role noted; a general child in its turn's sandbox, any other in the
/// read-only one; and every other setting as it was.
pub proof fn law_child_settings<S: SettingTypes>(
    turn: TurnContext<S>,
    args: SpawnSubagentArgsView,
    child_depth: SubagentDepthContext,
    read_only_policy: S::SandboxPolicy,
)
    ensures
        ({
            let config = crate::config::child_config(turn, args, child_depth, read_only_policy);
            &&& config.model == Some(turn.model)
            &&& config.model_provider == turn.model_provider
            &&& config.model_reasoning_effort == turn.model_reasoning_effort
            &&& config.model_reasoning_summary == turn.model_reasoning_summary
            &&& config.developer_instructions == turn.developer_instructions
            &&& config.base_instructions == turn.base_instructions
            &&& config.compact_prompt == turn.compact_prompt
            &&& config.user_instructions == turn.user_instructions
            &&& config.shell_environment_policy == turn.shell_environment_policy
            &&& config.codex_linux_sandbox_exe == turn.codex_linux_sandbox_exe
            &&& config.cwd == turn.cwd
            &&& config.subagent_depth == Some(child_depth)
            &&& config.subagent_role == Some(args.role)
            &&& args.role == SubagentRole::General ==> config.sandbox_policy
                == turn.sandbox_policy
            &&& args.role != SubagentRole::General ==> config.sandbox_policy == read_only_policy
            &&& config.approval_policy == turn.approval_policy
            &&& config.other == turn.config.other
        }),
{
}

} // verus!
