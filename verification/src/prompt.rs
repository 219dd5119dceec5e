//! The prompt that a subagent starts from.
use vstd::prelude::*;
use vstd::string::*;

use crate::args::{SpawnSubagentArgs, SpawnSubagentArgsView};
use crate::depth::SubagentDepthContext;
use crate::text;

verus! {

/// One line: a label, a value and a line break.
pub open spec fn line(label: Seq<char>, value: Seq<char>) -> Seq<char> {
    label + value + "\n"@
}

/// A line for a value that may be missing; without the value there is no line.
pub open spec fn optional_line(label: Seq<char>, value: Option<Seq<char>>) -> Seq<char> {
    match value {
        Some(v) => line(label, v),
        None => Seq::empty(),
    }
}

/// A line that lists values; without values there is no line.
pub open spec fn list_line(label: Seq<char>, values: Seq<Seq<char>>, separator: Seq<char>) -> Seq<
    char,
> {
    if values.len() == 0 {
        Seq::empty()
    } else {
        line(label, text::joined(values, separator))
    }
}

/// The tags at the top of a prompt: depth, role and overview.
pub open spec fn prompt_header(
    args: SpawnSubagentArgsView,
    depth: SubagentDepthContext,
) -> Seq<char> {
    line(Seq::empty(), depth.tag()) + line("[ROLE] "@, args.role.label()) + "[OVERVIEW] "@
        + args.overview + "\n\n"@
}

/// The task section of a prompt: goal, requirements, output and context.
pub open spec fn prompt_task(args: SpawnSubagentArgsView) -> Seq<char> {
    "## Task\n"@ + line("**Goal**: "@, args.goal) + list_line(
        "**Requirements**: "@,
        args.requirements,
        "; "@,
    ) + line("**Output**: "@, args.output_type.label()) + list_line(
        "**Context**: "@,
        args.context_paths,
        ", "@,
    )
}

/// The optional lines at the end of a prompt.
pub open spec fn prompt_options(args: SpawnSubagentArgsView) -> Seq<char> {
    optional_line("**report_path**: "@, args.report_path) + optional_line(
        "**plan_dir**: "@,
        args.plan_dir,
    ) + optional_line("**SESSION_ID**: "@, args.session_id) + optional_line(
        "\n"@,
        args.additional_context,
    )
}

/// The whole prompt.
pub open spec fn prompt_text(
    args: SpawnSubagentArgsView,
    depth: SubagentDepthContext,
) -> Seq<char> {
    prompt_header(args, depth) + prompt_task(args) + prompt_options(args)
}

/// Adds one line.
fn push_line(prompt: &mut String, label: &str, value: &str)
    ensures
        final(prompt)@ == old(prompt)@ + line(label@, value@),
{
    prompt.append(label);
    prompt.append(value);
    prompt.append("\n");
    assert(prompt@ =~= old(prompt)@ + line(label@, value@));
}

/// Adds the line of a value that may be missing.
fn push_optional(prompt: &mut String, label: &str, value: &Option<String>)
    ensures
        final(prompt)@ == old(prompt)@ + optional_line(label@, value.deep_view()),
{
    if let Some(v) = value {
        push_line(prompt, label, v.as_str());
    }
}

/// Adds the line that lists the values.
fn push_list(prompt: &mut String, label: &str, values: &Vec<String>, separator: &str)
    ensures
        final(prompt)@ == old(prompt)@ + list_line(label@, values.deep_view(), separator@),
{
    if values.len() != 0 {
        push_line(prompt, label, text::join_text(values, separator).as_str());
    }
}

/// Build the prompt string for the subagent.
pub fn build_subagent_prompt(args: &SpawnSubagentArgs, depth: &SubagentDepthContext) -> (prompt:
    String)
    ensures
        prompt@ == prompt_text(args@, *depth),
{
    let mut prompt = String::new();

    // Depth and role tags.
    push_line(&mut prompt, "", depth.format_tag().as_str());
    push_line(&mut prompt, "[ROLE] ", args.role.name());
    prompt.append("[OVERVIEW] ");
    prompt.append(args.overview.as_str());
    prompt.append("\n\n");
    proof {
        reveal_strlit("");
        assert(""@ =~= Seq::<char>::empty());
        assert(prompt@ =~= prompt_header(args@, *depth));
    }

    // Task section.
    prompt.append("## Task\n");
    push_line(&mut prompt, "**Goal**: ", args.goal.as_str());
    push_list(&mut prompt, "**Requirements**: ", &args.requirements, "; ");
    push_line(&mut prompt, "**Output**: ", args.output_type.name());
    push_list(&mut prompt, "**Context**: ", &args.context_paths, ", ");
    assert(prompt@ =~= prompt_header(args@, *depth) + prompt_task(args@));

    // Optional fields.
    push_optional(&mut prompt, "**report_path**: ", &args.report_path);
    push_optional(&mut prompt, "**plan_dir**: ", &args.plan_dir);
    push_optional(&mut prompt, "**SESSION_ID**: ", &args.session_id);
    push_optional(&mut prompt, "\n", &args.additional_context);
    assert(prompt@ =~= prompt_text(args@, *depth));
    prompt
}

/// A prompt opens with the depth tag, followed by the role and the overview,
/// each on a line of its own.
pub proof fn law_prompt_opens_with_tags(
    args: SpawnSubagentArgsView,
    depth: SubagentDepthContext,
)
    ensures
        ({
            let opening = depth.tag() + "\n[ROLE] "@ + args.role.label() + "\n[OVERVIEW] "@
                + args.overview + "\n\n## Task\n"@;
            let prompt = prompt_text(args, depth);
            opening.len() <= prompt.len() && prompt.subrange(0, opening.len() as int) == opening
        }),
{
    reveal_strlit("\n");
    reveal_strlit("\n\n");
    reveal_strlit("[ROLE] ");
    reveal_strlit("\n[ROLE] ");
    reveal_strlit("[OVERVIEW] ");
    reveal_strlit("\n[OVERVIEW] ");
    reveal_strlit("## Task\n");
    reveal_strlit("\n\n## Task\n");
    assert("\n[ROLE] "@ =~= "\n"@ + "[ROLE] "@);
    assert("\n[OVERVIEW] "@ =~= "\n"@ + "[OVERVIEW] "@);
    assert("\n\n## Task\n"@ =~= "\n\n"@ + "## Task\n"@);
    let opening = depth.tag() + "\n[ROLE] "@ + args.role.label() + "\n[OVERVIEW] "@ + args.overview
        + "\n\n## Task\n"@;
    assert(opening =~= prompt_header(args, depth) + "## Task\n"@);
    let prompt = prompt_text(args, depth);
    let rest = prompt_task(args).subrange(
        "## Task\n"@.len() as int,
        prompt_task(args).len() as int,
    ) + prompt_options(args);
    assert(prompt =~= opening + rest);
    assert(prompt.subrange(0, opening.len() as int) =~= opening);
}

/// A prompt carries the whole task: the goal and the expected output, every
/// requirement, every context path and every optional field that was given.
pub proof fn law_prompt_carries_the_task(
    args: SpawnSubagentArgsView,
    depth: SubagentDepthContext,
)
    ensures
        text::occurs(line("**Goal**: "@, args.goal), prompt_text(args, depth)),
        text::occurs(line("**Output**: "@, args.output_type.label()), prompt_text(args, depth)),
        forall|i: int|
            0 <= i < args.requirements.len() ==> text::occurs(
                #[trigger] args.requirements[i],
                prompt_text(args, depth),
            ),
        forall|i: int|
            0 <= i < args.context_paths.len() ==> text::occurs(
                #[trigger] args.context_paths[i],
                prompt_text(args, depth),
            ),
        args.report_path matches Some(v) ==> text::occurs(
            line("**report_path**: "@, v),
            prompt_text(args, depth),
        ),
        args.plan_dir matches Some(v) ==> text::occurs(
            line("**plan_dir**: "@, v),
            prompt_text(args, depth),
        ),
        args.session_id matches Some(v) ==> text::occurs(
            line("**SESSION_ID**: "@, v),
            prompt_text(args, depth),
        ),
        args.additional_context matches Some(v) ==> text::occurs(v, prompt_text(args, depth)),
{
    let header = prompt_header(args, depth);
    let task = prompt_task(args);
    let options = prompt_options(args);
    lemma_task_holds_its_lines(args);
    lemma_options_hold_their_lines(args);
    assert forall|inner: Seq<char>| #[trigger] text::occurs(inner, task) implies text::occurs(
        inner,
        prompt_text(args, depth),
    ) by {
        text::lemma_occurs_in_sum(inner, header, task);
        text::lemma_occurs_in_sum(inner, header + task, options);
    }
    assert forall|inner: Seq<char>| #[trigger] text::occurs(inner, options) implies text::occurs(
        inner,
        prompt_text(args, depth),
    ) by {
        text::lemma_occurs_in_sum(inner, header + task, options);
    }
    assert forall|i: int| 0 <= i < args.requirements.len() implies text::occurs(
        #[trigger] args.requirements[i],
        prompt_text(args, depth),
    ) by {
        assert(text::occurs(args.requirements[i], task));
    }
    assert forall|i: int| 0 <= i < args.context_paths.len() implies text::occurs(
        #[trigger] args.context_paths[i],
        prompt_text(args, depth),
    ) by {
        assert(text::occurs(args.context_paths[i], task));
    }
}

/// A line occurs with its value.
proof fn lemma_line_holds_its_value(label: Seq<char>, value: Seq<char>)
    ensures
        text::occurs(value, line(label, value)),
{
    text::lemma_occurs_between(label, value, "\n"@);
}

/// The line of a list holds every value of it.
proof fn lemma_list_line_holds_every_value(
    label: Seq<char>,
    values: Seq<Seq<char>>,
    separator: Seq<char>,
    i: int,
)
    requires
        0 <= i < values.len(),
    ensures
        text::occurs(values[i], list_line(label, values, separator)),
{
    let all = text::joined(values, separator);
    text::law_joined_holds_every_part(values, separator, i);
    lemma_line_holds_its_value(label, all);
    text::lemma_occurs_in_larger(values[i], all, line(label, all));
}

/// The task section holds the goal, the output and every listed value.
proof fn lemma_task_holds_its_lines(args: SpawnSubagentArgsView)
    ensures
        text::occurs(line("**Goal**: "@, args.goal), prompt_task(args)),
        text::occurs(line("**Output**: "@, args.output_type.label()), prompt_task(args)),
        forall|i: int|
            0 <= i < args.requirements.len() ==> text::occurs(
                #[trigger] args.requirements[i],
                prompt_task(args),
            ),
        forall|i: int|
            0 <= i < args.context_paths.len() ==> text::occurs(
                #[trigger] args.context_paths[i],
                prompt_task(args),
            ),
{
    let goal = line("**Goal**: "@, args.goal);
    let wanted = list_line("**Requirements**: "@, args.requirements, "; "@);
    let output = line("**Output**: "@, args.output_type.label());
    let context = list_line("**Context**: "@, args.context_paths, ", "@);
    let upto_goal = "## Task\n"@ + goal;
    let upto_wanted = upto_goal + wanted;
    let upto_output = upto_wanted + output;
    text::lemma_occurs_in_itself(goal);
    text::lemma_occurs_in_sum(goal, "## Task\n"@, goal);
    text::lemma_occurs_in_sum(goal, upto_goal, wanted);
    text::lemma_occurs_in_sum(goal, upto_wanted, output);
    text::lemma_occurs_in_sum(goal, upto_output, context);
    text::lemma_occurs_in_itself(output);
    text::lemma_occurs_in_sum(output, upto_wanted, output);
    text::lemma_occurs_in_sum(output, upto_output, context);
    assert forall|i: int| 0 <= i < args.requirements.len() implies text::occurs(
        #[trigger] args.requirements[i],
        prompt_task(args),
    ) by {
        let v = args.requirements[i];
        lemma_list_line_holds_every_value("**Requirements**: "@, args.requirements, "; "@, i);
        text::lemma_occurs_in_sum(v, upto_goal, wanted);
        text::lemma_occurs_in_sum(v, upto_wanted, output);
        text::lemma_occurs_in_sum(v, upto_output, context);
    }
    assert forall|i: int| 0 <= i < args.context_paths.len() implies text::occurs(
        #[trigger] args.context_paths[i],
        prompt_task(args),
    ) by {
        lemma_list_line_holds_every_value("**Context**: "@, args.context_paths, ", "@, i);
        text::lemma_occurs_in_sum(args.context_paths[i], upto_output, context);
    }
}

/// The optional lines hold every field that was given.
proof fn lemma_options_hold_their_lines(args: SpawnSubagentArgsView)
    ensures
        args.report_path matches Some(v) ==> text::occurs(
            line("**report_path**: "@, v),
            prompt_options(args),
        ),
        args.plan_dir matches Some(v) ==> text::occurs(
            line("**plan_dir**: "@, v),
            prompt_options(args),
        ),
        args.session_id matches Some(v) ==> text::occurs(
            line("**SESSION_ID**: "@, v),
            prompt_options(args),
        ),
        args.additional_context matches Some(v) ==> text::occurs(v, prompt_options(args)),
{
    let report = optional_line("**report_path**: "@, args.report_path);
    let plan = optional_line("**plan_dir**: "@, args.plan_dir);
    let session = optional_line("**SESSION_ID**: "@, args.session_id);
    let extra = optional_line("\n"@, args.additional_context);
    text::lemma_occurs_in_itself(report);
    text::lemma_occurs_in_sum(report, report, plan);
    text::lemma_occurs_in_sum(report, report + plan, session);
    text::lemma_occurs_in_sum(report, report + plan + session, extra);
    text::lemma_occurs_in_itself(plan);
    text::lemma_occurs_in_sum(plan, report, plan);
    text::lemma_occurs_in_sum(plan, report + plan, session);
    text::lemma_occurs_in_sum(plan, report + plan + session, extra);
    text::lemma_occurs_in_itself(session);
    text::lemma_occurs_in_sum(session, report + plan, session);
    text::lemma_occurs_in_sum(session, report + plan + session, extra);
    if let Some(v) = args.additional_context {
        lemma_line_holds_its_value("\n"@, v);
        text::lemma_occurs_in_sum(v, report + plan + session, extra);
    }
}

} // verus!
