//! Roles of agents and the rules of who may spawn whom.
use vstd::prelude::*;

use crate::depth::MAX_SUBAGENT_DEPTH;

verus! {

/// Subagent role determines the permissions and capabilities of a spawned agent.
#[derive(Debug, Clone, Copy, PartialEq, Eq, Structural)]
pub enum SubagentRole {
    /// General-purpose agent with workspace write permissions.
    /// Can spawn: general, review, analyse, plan at depth 0 and 1; only analyse at depth 2.
    General,
    /// Review agent with read-only permissions (write only if report_path given).
    /// Its sandbox is the read-only one; a report_path is named in its prompt.
    /// Can only spawn: analyse.
    Review,
    /// Analysis agent with read-only permissions.
    /// Can only spawn: analyse.
    Analyse,
    /// Planning agent with read-only permissions (write only if plan_dir given).
    /// Its sandbox is the read-only one; a plan_dir is named in its prompt.
    /// Can only spawn: analyse.
    Plan,
}

impl Default for SubagentRole {
    fn default() -> (role: Self)
        ensures
            role == SubagentRole::General,
    {
        SubagentRole::General
    }
}

impl SubagentRole {
    /// The role's name.
    pub open spec fn label(self) -> Seq<char> {
        match self {
            SubagentRole::General => "General"@,
            SubagentRole::Review => "Review"@,
            SubagentRole::Analyse => "Analyse"@,
            SubagentRole::Plan => "Plan"@,
        }
    }

    /// Whether the role only reads: every role but `General`.
    pub open spec fn read_only(self) -> bool {
        self != SubagentRole::General
    }

    /// The roles that this role can spawn at the given depth, in order.
    pub open spec fn child_roles(self, depth: u8) -> Seq<SubagentRole> {
        if depth >= MAX_SUBAGENT_DEPTH {
            Seq::empty()
        } else if self.read_only() || depth == 2 {
            seq![SubagentRole::Analyse]
        } else {
            seq![
                SubagentRole::General,
                SubagentRole::Review,
                SubagentRole::Analyse,
                SubagentRole::Plan,
            ]
        }
    }

    /// Whether this role may spawn `child` at the given depth: below the depth
    /// limit an analyst may always be spawned, and a general agent no deeper
    /// than depth 1 may spawn anyone.
    pub open spec fn may_spawn(self, child: SubagentRole, depth: u8) -> bool {
        &&& depth < MAX_SUBAGENT_DEPTH
        &&& child == SubagentRole::Analyse || (self == SubagentRole::General && depth <= 1)
    }

    /// The role's name, as it is shown to users and to models.
    pub fn name(&self) -> (s: &'static str)
        ensures
            s@ == self.label(),
    {
        match self {
            SubagentRole::General => "General",
            SubagentRole::Review => "Review",
            SubagentRole::Analyse => "Analyse",
            SubagentRole::Plan => "Plan",
        }
    }

    /// Returns whether this role has read-only permissions by default.
    pub fn is_read_only(&self) -> (b: bool)
        ensures
            b == self.read_only(),
    {
        matches!(self, SubagentRole::Review | SubagentRole::Analyse | SubagentRole::Plan)
    }

    /// Returns the roles that this role can spawn at the given depth.
    pub fn allowed_child_roles(&self, depth: u8) -> (roles: Vec<SubagentRole>)
        ensures
            roles@ == self.child_roles(depth),
    {
        if depth >= MAX_SUBAGENT_DEPTH {
            return vec![];
        }
        match self {
            SubagentRole::General => {
                if depth <= 1 {
                    vec![
                        SubagentRole::General,
                        SubagentRole::Review,
                        SubagentRole::Analyse,
                        SubagentRole::Plan,
                    ]
                } else {
                    vec![SubagentRole::Analyse]
                }
            },
            SubagentRole::Review | SubagentRole::Analyse | SubagentRole::Plan => {
                vec![SubagentRole::Analyse]
            },
        }
    }

    /// Returns whether this role can spawn the given child role at the given depth.
    pub fn can_spawn(&self, child_role: SubagentRole, depth: u8) -> (b: bool)
        ensures
            b == self.may_spawn(child_role, depth),
    {
        if depth >= MAX_SUBAGENT_DEPTH {
            return false;
        }
        let allowed = self.allowed_child_roles(depth);
        proof {
            law_listed_roles_are_spawnable(*self, child_role, depth);
        }
        let mut i: usize = 0;
        while i < allowed.len()
            invariant
                0 <= i <= allowed.len(),
                allowed@ == self.child_roles(depth),
                self.may_spawn(child_role, depth) <==> allowed@.contains(child_role),
                forall|j: int| 0 <= j < i ==> allowed@[j] != child_role,
            decreases allowed.len() - i,
        {
            if allowed[i] == child_role {
                return true;
            }
            i = i + 1;
        }
        false
    }
}

/// At every depth, a role may spawn exactly the roles listed for it.
pub proof fn law_listed_roles_are_spawnable(parent: SubagentRole, child: SubagentRole, depth: u8)
    ensures
        parent.may_spawn(child, depth) <==> parent.child_roles(depth).contains(child),
{
    let roles = parent.child_roles(depth);
    if depth >= MAX_SUBAGENT_DEPTH {
        assert(roles.len() == 0);
    } else if parent.read_only() || depth == 2 {
        assert(roles[0] == SubagentRole::Analyse);
    } else {
        assert(roles[0] == SubagentRole::General);
        assert(roles[1] == SubagentRole::Review);
        assert(roles[2] == SubagentRole::Analyse);
        assert(roles[3] == SubagentRole::Plan);
    }
}

/// Permissions never grow along a spawn: what a read-only role spawns is read-only.
pub proof fn law_read_only_is_inherited(parent: SubagentRole, child: SubagentRole, depth: u8)
    requires
        parent.read_only(),
        parent.may_spawn(child, depth),
    ensures
        child.read_only(),
        child == SubagentRole::Analyse,
{
}

/// Nothing is ever spawned, or listed as spawnable, at the depth limit or beyond it.
pub proof fn law_no_spawn_at_the_limit(parent: SubagentRole, child: SubagentRole, depth: u8)
    requires
        depth >= MAX_SUBAGENT_DEPTH,
    ensures
        !parent.may_spawn(child, depth),
        parent.child_roles(depth).len() == 0,
{
}

/// Going deeper never allows what a shallower depth forbids.
pub proof fn law_spawning_narrows_with_depth(
    parent: SubagentRole,
    child: SubagentRole,
    shallow: u8,
    deep: u8,
)
    requires
        shallow <= deep,
        parent.may_spawn(child, deep),
    ensures
        parent.may_spawn(child, shallow),
{
}

} // verus!
