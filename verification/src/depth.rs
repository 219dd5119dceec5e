//! Nesting depth and the strategy that goes with it.
use vstd::prelude::*;
use vstd::string::*;

use crate::text;

verus! {

/// Maximum allowed subagent depth (0 = main agent, 3 = terminal).
pub const MAX_SUBAGENT_DEPTH: u8 = 3;

/// Execution strategy based on subagent depth.
#[derive(Debug, Clone, Copy, PartialEq, Eq, Structural)]
pub enum SubagentStrategy {
    /// Depth 0: delegate via subagents, coordinate and review.
    Orchestrate,
    /// Depth 1: execute simple tasks, delegate complex ones.
    Balance,
    /// Depth 2: self-complete, only an analyse subagent is allowed.
    Execute,
    /// Depth 3 and deeper: must complete alone, no subagents.
    Terminal,
}

impl SubagentStrategy {
    /// The strategy's name.
    pub open spec fn label(self) -> Seq<char> {
        match self {
            SubagentStrategy::Orchestrate => "Orchestrate"@,
            SubagentStrategy::Balance => "Balance"@,
            SubagentStrategy::Execute => "Execute"@,
            SubagentStrategy::Terminal => "Terminal"@,
        }
    }

    /// The strategy that goes with a depth.
    pub open spec fn at(depth: u8) -> SubagentStrategy {
        if depth == 0 {
            SubagentStrategy::Orchestrate
        } else if depth == 1 {
            SubagentStrategy::Balance
        } else if depth == 2 {
            SubagentStrategy::Execute
        } else {
            SubagentStrategy::Terminal
        }
    }

    /// The strategy's name, as it is shown to users.
    pub fn name(&self) -> (s: &'static str)
        ensures
            s@ == self.label(),
    {
        match self {
            SubagentStrategy::Orchestrate => "Orchestrate",
            SubagentStrategy::Balance => "Balance",
            SubagentStrategy::Execute => "Execute",
            SubagentStrategy::Terminal => "Terminal",
        }
    }

    /// Returns the strategy for a given depth.
    pub fn for_depth(depth: u8) -> (strategy: Self)
        ensures
            strategy == Self::at(depth),
    {
        match depth {
            0 => SubagentStrategy::Orchestrate,
            1 => SubagentStrategy::Balance,
            2 => SubagentStrategy::Execute,
            _ => SubagentStrategy::Terminal,
        }
    }

    /// Returns whether subagent spawning is allowed for this strategy.
    pub fn allows_subagents(&self) -> (b: bool)
        ensures
            b == (*self != SubagentStrategy::Terminal),
    {
        !matches!(self, SubagentStrategy::Terminal)
    }
}

/// Depth context for tracking subagent nesting level.
#[derive(Debug, Clone, Copy, PartialEq, Eq, Structural)]
pub struct SubagentDepthContext {
    /// Current depth (0 = main agent).
    pub current: u8,
    /// Maximum allowed depth.
    pub max: u8,
}

impl Default for SubagentDepthContext {
    fn default() -> (ctx: Self)
        ensures
            ctx.current == 0,
            ctx.max == MAX_SUBAGENT_DEPTH,
    {
        Self { current: 0, max: MAX_SUBAGENT_DEPTH }
    }
}

impl SubagentDepthContext {
    /// Whether an agent at this depth has room for a child below it.
    pub open spec fn has_room(self) -> bool {
        self.current < self.max && self.current < MAX_SUBAGENT_DEPTH
    }

    /// The context one level deeper, under the same maximum.
    pub open spec fn deeper(self) -> SubagentDepthContext {
        SubagentDepthContext { current: (self.current + 1) as u8, max: self.max }
    }

    /// The context's tag, such as "[DEPTH] 1/3".
    pub open spec fn tag(self) -> Seq<char> {
        "[DEPTH] "@ + text::decimal(self.current as nat) + "/"@ + text::decimal(self.max as nat)
    }

    /// Creates a new depth context with default max depth.
    pub fn new(current: u8) -> (ctx: Self)
        ensures
            ctx.current == current,
            ctx.max == MAX_SUBAGENT_DEPTH,
    {
        Self { current, max: MAX_SUBAGENT_DEPTH }
    }

    /// Creates a new depth context with custom max depth.
    pub fn with_max(current: u8, max: u8) -> (ctx: Self)
        ensures
            ctx.current == current,
            ctx.max == max,
    {
        Self { current, max }
    }

    /// Returns the strategy for the current depth.
    pub fn strategy(&self) -> (strategy: SubagentStrategy)
        ensures
            strategy == SubagentStrategy::at(self.current),
    {
        SubagentStrategy::for_depth(self.current)
    }

    /// Returns a new context for a child agent (incremented depth), if there
    /// is room for one.
    pub fn child_context(&self) -> (child: Option<Self>)
        ensures
            child == (if self.has_room() {
                Some(self.deeper())
            } else {
                None
            }),
    {
        if self.current >= self.max || self.current >= MAX_SUBAGENT_DEPTH {
            None
        } else {
            Some(Self { current: self.current + 1, max: self.max })
        }
    }

    /// Returns whether spawning a child is allowed.
    pub fn can_spawn_child(&self) -> (b: bool)
        ensures
            b == self.has_room(),
    {
        self.child_context().is_some()
    }

    /// Format as "[DEPTH] N/M" string.
    pub fn format_tag(&self) -> (s: String)
        ensures
            s@ == self.tag(),
    {
        let mut s = "[DEPTH] ".to_string();
        s.append(text::decimal_text(self.current).as_str());
        s.append("/");
        s.append(text::decimal_text(self.max).as_str());
        s
    }
}

/// A chain of contexts, each one a child of the one before it.
pub open spec fn lineage(chain: Seq<SubagentDepthContext>) -> bool {
    forall|i: int|
        0 <= i < chain.len() - 1 ==> (#[trigger] chain[i]).has_room() && chain[i + 1]
            == chain[i].deeper()
}

/// A child sits exactly one level below its parent, under the same maximum,
/// and within both limits.
pub proof fn law_child_is_one_deeper(ctx: SubagentDepthContext)
    requires
        ctx.has_room(),
    ensures
        ctx.deeper().current == ctx.current + 1,
        ctx.deeper().max == ctx.max,
        ctx.deeper().current <= ctx.max,
        ctx.deeper().current <= MAX_SUBAGENT_DEPTH,
{
}

/// Recursion is bounded: the n-th context of a chain sits n levels below the
/// first, and no chain has more contexts below its first than there are levels
/// left under either limit.
pub proof fn law_lineage_is_bounded(chain: Seq<SubagentDepthContext>)
    requires
        chain.len() > 0,
        lineage(chain),
    ensures
        forall|i: int|
            0 <= i < chain.len() ==> (#[trigger] chain[i]).current == chain[0].current + i
                && chain[i].max == chain[0].max,
        chain.len() > 1 ==> chain[0].current + chain.len() - 1 <= MAX_SUBAGENT_DEPTH,
        chain.len() > 1 ==> chain[0].current + chain.len() - 1 <= chain[0].max,
        chain.len() <= MAX_SUBAGENT_DEPTH + 1,
    decreases chain.len(),
{
    if chain.len() > 1 {
        let shorter = chain.drop_last();
        assert(lineage(shorter)) by {
            assert forall|i: int| 0 <= i < shorter.len() - 1 implies (
            #[trigger] shorter[i]).has_room() && shorter[i + 1] == shorter[i].deeper() by {
                assert(chain[i].has_room());
            }
        }
        law_lineage_is_bounded(shorter);
        let before = chain.len() - 2;
        assert(chain[before].has_room());
        assert(chain[before + 1] == chain[before].deeper());
        assert(shorter[before] == chain[before]);
        assert forall|i: int| 0 <= i < chain.len() implies (#[trigger] chain[i]).current
            == chain[0].current + i && chain[i].max == chain[0].max by {
            if i <= before {
                assert(shorter[i] == chain[i]);
            }
        }
    }
}

/// The strategy and the depth limit agree: a strategy allows subagents exactly
/// below the limit, so under the default maximum exactly where a child has room.
pub proof fn law_strategy_agrees_with_room(ctx: SubagentDepthContext)
    ensures
        SubagentStrategy::at(ctx.current) != SubagentStrategy::Terminal <==> ctx.current
            < MAX_SUBAGENT_DEPTH,
        ctx.max == MAX_SUBAGENT_DEPTH ==> (ctx.has_room() <==> SubagentStrategy::at(ctx.current)
            != SubagentStrategy::Terminal),
        ctx.has_room() ==> SubagentStrategy::at(ctx.current) != SubagentStrategy::Terminal,
{
}

/// A tag tells the context: contexts with the same tag are the same.
pub proof fn law_tag_tells_the_context(a: SubagentDepthContext, b: SubagentDepthContext)
    requires
        a.tag() == b.tag(),
    ensures
        a == b,
{
    reveal_strlit("[DEPTH] ");
    reveal_strlit("/");
    let (ac, am) = (text::decimal(a.current as nat), text::decimal(a.max as nat));
    let (bc, bm) = (text::decimal(b.current as nat), text::decimal(b.max as nat));
    text::lemma_decimal_is_digits(a.current as nat);
    text::lemma_decimal_is_digits(b.current as nat);
    let tag = a.tag();
    let start = "[DEPTH] "@.len() as int;
    // The slash stands right behind the first numeral, and no numeral holds one.
    assert(tag[start + ac.len()] == '/');
    assert(tag[start + bc.len()] == '/');
    if ac.len() < bc.len() {
        assert(tag[start + ac.len()] == bc[ac.len() as int]);
    }
    if bc.len() < ac.len() {
        assert(tag[start + bc.len()] == ac[bc.len() as int]);
    }
    assert(tag.subrange(start, start + ac.len()) =~= ac);
    assert(tag.subrange(start, start + ac.len()) =~= bc);
    assert(tag.subrange(start + ac.len() + 1, tag.len() as int) =~= am);
    assert(tag.subrange(start + ac.len() + 1, tag.len() as int) =~= bm);
    text::law_decimal_is_unambiguous(a.current as nat, b.current as nat);
    text::law_decimal_is_unambiguous(a.max as nat, b.max as nat);
}

} // verus!
