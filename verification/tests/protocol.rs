use subagent::agent::ThreadId;
use subagent::depth::{SubagentDepthContext, SubagentStrategy, MAX_SUBAGENT_DEPTH};
use subagent::result::{
    default_round, SubagentResult, SubagentResultOutput, SubagentResultStatus,
};
use subagent::role::SubagentRole;
use subagent::task::{SubagentOutputType, SubagentSpawnConfig, SubagentTask};
use subagent::text::{decimal_text, is_blank, join_text};

#[test]
fn depth_context_child_increments() {
    let parent = SubagentDepthContext::new(0);
    let child = parent.child_context().expect("should allow child at depth 0");
    assert_eq!(child.current, 1);
    assert_eq!(child.max, MAX_SUBAGENT_DEPTH);
}

#[test]
fn depth_context_blocks_at_max() {
    let terminal = SubagentDepthContext::new(MAX_SUBAGENT_DEPTH);
    assert!(terminal.child_context().is_none());
}

#[test]
fn strategy_matches_depth() {
    assert_eq!(SubagentStrategy::for_depth(0), SubagentStrategy::Orchestrate);
    assert_eq!(SubagentStrategy::for_depth(1), SubagentStrategy::Balance);
    assert_eq!(SubagentStrategy::for_depth(2), SubagentStrategy::Execute);
    assert_eq!(SubagentStrategy::for_depth(3), SubagentStrategy::Terminal);
    assert_eq!(SubagentStrategy::for_depth(4), SubagentStrategy::Terminal);
}

#[test]
fn general_role_spawning_rules() {
    let general = SubagentRole::General;

    // At depth 0-1, general can spawn all roles
    assert!(general.can_spawn(SubagentRole::General, 0));
    assert!(general.can_spawn(SubagentRole::Review, 0));
    assert!(general.can_spawn(SubagentRole::Analyse, 1));
    assert!(general.can_spawn(SubagentRole::Plan, 1));

    // At depth 2, general can only spawn analyse
    assert!(!general.can_spawn(SubagentRole::General, 2));
    assert!(general.can_spawn(SubagentRole::Analyse, 2));

    // At depth 3 (max), no spawning allowed
    assert!(!general.can_spawn(SubagentRole::Analyse, 3));
}

#[test]
fn review_role_can_only_spawn_analyse() {
    let review = SubagentRole::Review;
    assert!(!review.can_spawn(SubagentRole::General, 0));
    assert!(!review.can_spawn(SubagentRole::Review, 0));
    assert!(review.can_spawn(SubagentRole::Analyse, 0));
    assert!(!review.can_spawn(SubagentRole::Plan, 0));
}

#[test]
fn depth_format_tag() {
    let ctx = SubagentDepthContext::with_max(1, 3);
    assert_eq!(ctx.format_tag(), "[DEPTH] 1/3");
}

#[test]
fn depth_format_tag_of_large_numbers() {
    assert_eq!(SubagentDepthContext::with_max(10, 255).format_tag(), "[DEPTH] 10/255");
    assert_eq!(SubagentDepthContext::with_max(0, 0).format_tag(), "[DEPTH] 0/0");
}

#[test]
fn tags_of_different_contexts_differ() {
    let a = SubagentDepthContext::with_max(1, 11).format_tag();
    let b = SubagentDepthContext::with_max(11, 1).format_tag();
    assert_ne!(a, b);
}

#[test]
fn child_context_is_bound_by_the_smaller_maximum() {
    assert!(SubagentDepthContext::with_max(1, 1).child_context().is_none());
    assert!(SubagentDepthContext::with_max(3, 9).child_context().is_none());
    assert!(SubagentDepthContext::with_max(255, 255).child_context().is_none());
    let child = SubagentDepthContext::with_max(2, 9).child_context();
    assert_eq!(child, Some(SubagentDepthContext { current: 3, max: 9 }));
}

#[test]
fn lineage_ends_at_the_limit() {
    let mut ctx = SubagentDepthContext::default();
    let mut generations = 0;
    while let Some(child) = ctx.child_context() {
        assert!(ctx.can_spawn_child());
        assert!(ctx.strategy().allows_subagents());
        ctx = child;
        generations += 1;
    }
    assert_eq!(generations, 3);
    assert_eq!(ctx, SubagentDepthContext::new(3));
    assert!(!ctx.can_spawn_child());
    assert!(!ctx.strategy().allows_subagents());
}

#[test]
fn defaults() {
    assert_eq!(SubagentRole::default(), SubagentRole::General);
    assert_eq!(SubagentOutputType::default(), SubagentOutputType::Text);
    assert_eq!(
        SubagentDepthContext::default(),
        SubagentDepthContext { current: 0, max: 3 }
    );
    assert_eq!(default_round(), 1);
}

#[test]
fn only_general_writes() {
    assert!(!SubagentRole::General.is_read_only());
    assert!(SubagentRole::Review.is_read_only());
    assert!(SubagentRole::Analyse.is_read_only());
    assert!(SubagentRole::Plan.is_read_only());
}

#[test]
fn listed_child_roles() {
    let all = vec![
        SubagentRole::General,
        SubagentRole::Review,
        SubagentRole::Analyse,
        SubagentRole::Plan,
    ];
    assert_eq!(SubagentRole::General.allowed_child_roles(0), all);
    assert_eq!(SubagentRole::General.allowed_child_roles(1), all);
    assert_eq!(
        SubagentRole::General.allowed_child_roles(2),
        vec![SubagentRole::Analyse]
    );
    assert!(SubagentRole::General.allowed_child_roles(3).is_empty());
    for role in [SubagentRole::Review, SubagentRole::Analyse, SubagentRole::Plan] {
        for depth in 0..3 {
            assert_eq!(role.allowed_child_roles(depth), vec![SubagentRole::Analyse]);
        }
        for depth in [3, 4, 255] {
            assert!(role.allowed_child_roles(depth).is_empty());
        }
    }
}

#[test]
fn spawnable_roles_are_the_listed_ones() {
    let all = [
        SubagentRole::General,
        SubagentRole::Review,
        SubagentRole::Analyse,
        SubagentRole::Plan,
    ];
    for parent in all {
        for child in all {
            for depth in 0..6 {
                let listed = parent.allowed_child_roles(depth).contains(&child);
                assert_eq!(parent.can_spawn(child, depth), listed);
                if parent.is_read_only() && parent.can_spawn(child, depth) {
                    assert!(child.is_read_only());
                }
            }
        }
    }
}

#[test]
fn names_are_the_variants_names() {
    assert_eq!(SubagentRole::Analyse.name(), "Analyse");
    assert_eq!(SubagentStrategy::Orchestrate.name(), "Orchestrate");
    assert_eq!(SubagentOutputType::Diff.name(), "Diff");
    assert_eq!(SubagentResultStatus::TimedOut.name(), "TimedOut");
}

fn result(status: SubagentResultStatus) -> SubagentResult {
    SubagentResult {
        agent_id: ThreadId { text: "t-1".to_string() },
        role: SubagentRole::Plan,
        depth: 2,
        status,
        output: Some("done".to_string()),
        round: 4,
    }
}

#[test]
fn only_success_is_success() {
    assert!(result(SubagentResultStatus::Success).is_success());
    assert!(!result(SubagentResultStatus::Partial).is_success());
    assert!(!result(SubagentResultStatus::Failed).is_success());
    assert!(!result(SubagentResultStatus::TimedOut).is_success());
    assert!(!result(SubagentResultStatus::Cancelled).is_success());
}

#[test]
fn output_of_a_result() {
    let shown = SubagentResultOutput::from(result(SubagentResultStatus::Partial));
    assert_eq!(shown.status, "Partial");
    assert_eq!(shown.output.as_deref(), Some("done"));
    assert_eq!(shown.round, 4);
}

#[test]
fn spawn_config_carries_its_task() {
    let config = SubagentSpawnConfig {
        role: SubagentRole::Review,
        depth: SubagentDepthContext::new(1),
        task: SubagentTask {
            overview: "o".to_string(),
            goal: "g".to_string(),
            requirements: vec![],
            output_type: SubagentOutputType::Report,
            context_paths: vec![std::path::PathBuf::from("src/lib.rs")],
            additional_context: None,
        },
        background: false,
        session_id: None,
        report_path: Some(std::path::PathBuf::from("report.md")),
        plan_dir: None,
    };
    let copy = config.clone();
    assert_eq!(copy.task.context_paths, config.task.context_paths);
    assert_eq!(copy.report_path, Some(std::path::PathBuf::from("report.md")));
}

#[test]
fn blank_text_is_white_space_only() {
    assert!(is_blank(""));
    assert!(is_blank(" \t\r\n\u{b}\u{c}"));
    assert!(is_blank("\u{85}\u{a0}\u{1680}\u{2000}\u{200a}\u{2028}\u{2029}\u{202f}\u{205f}\u{3000}"));
    assert!(!is_blank(" x "));
    // Not white space, though it shows as nothing.
    assert!(!is_blank("\u{200b}"));
    assert!(!is_blank("\u{180e}"));
}

#[test]
fn blank_text_agrees_with_the_white_space_property() {
    for n in 0..=0x10ffffu32 {
        if let Some(c) = char::from_u32(n) {
            let listed = matches!(
                n,
                0x9..=0xd
                    | 0x20
                    | 0x85
                    | 0xa0
                    | 0x1680
                    | 0x2000..=0x200a
                    | 0x2028
                    | 0x2029
                    | 0x202f
                    | 0x205f
                    | 0x3000
            );
            let mut buffer = [0u8; 4];
            assert_eq!(is_blank(c.encode_utf8(&mut buffer)), listed, "{n:#x}");
        }
    }
}

#[test]
fn numerals() {
    for n in 0..=255u8 {
        assert_eq!(decimal_text(n), format!("{n}"));
    }
}

#[test]
fn joining() {
    let parts = vec!["a".to_string(), "".to_string(), "c".to_string()];
    assert_eq!(join_text(&parts, "; "), "a; ; c");
    assert_eq!(join_text(&vec!["a".to_string()], "; "), "a");
    assert_eq!(join_text(&vec![], "; "), "");
}
