//! Agents and the store that owns their authoritative state.

use vstd::prelude::*;
use crate::config::{SimConfig, MAX_AGENTS, MAX_SPEED};
use crate::vec2::Vec2;

verus! {

/// One simulated flocking entity.
#[derive(Clone, Copy, PartialEq, Eq, Structural, Debug)]
pub struct Agent {
    /// Stable identifier, unique among live agents; equals the agent's index
    /// in its store.
    pub id: u64,
    /// Position in world space.
    pub position: Vec2,
    /// Current velocity; its magnitude is the agent's speed, its direction
    /// the agent's heading.
    pub velocity: Vec2,
}

/// The agent's position lies inside the world rectangle.
pub open spec fn in_world(a: Agent, c: SimConfig) -> bool {
    &&& -c.half_width <= a.position.x <= c.half_width
    &&& -c.half_height <= a.position.y <= c.half_height
}

/// Both velocity components are within the supported speed range.
pub open spec fn speed_bounded(a: Agent) -> bool {
    &&& -MAX_SPEED <= a.velocity.x <= MAX_SPEED
    &&& -MAX_SPEED <= a.velocity.y <= MAX_SPEED
}

/// Per-agent well-formedness: in the world and not over the speed cap.
pub open spec fn agent_wf(a: Agent, c: SimConfig) -> bool {
    in_world(a, c) && speed_bounded(a)
}

/// Store-wide invariant over a sequence of agents: a supported number of
/// agents, each well formed, each carrying its index as its identifier.
pub open spec fn agents_wf(s: Seq<Agent>, c: SimConfig) -> bool {
    &&& s.len() <= MAX_AGENTS
    &&& forall|i: int| 0 <= i < s.len() ==> #[trigger] agent_wf(s[i], c)
    &&& forall|i: int| 0 <= i < s.len() ==> (#[trigger] s[i]).id == i as u64
}

/// The flat, mutable collection holding every agent's authoritative state.
pub struct AgentStore {
    /// The agents, indexed by identifier.
    pub agents: Vec<Agent>,
}

impl AgentStore {
    /// Well-formedness of the store under a configuration.
    pub open spec fn wf(self, c: SimConfig) -> bool {
        c.valid() && agents_wf(self.agents@, c)
    }

    /// Number of live agents.
    pub fn len(&self) -> (n: usize)
        ensures
            n == self.agents@.len(),
    {
        self.agents.len()
    }
}

} // verus!
