//! The simulation driver: batch creation, the per-frame tick, and the
//! read-only snapshot.

use vstd::prelude::*;
use crate::agent::{agent_wf, Agent, AgentStore};
use crate::config::{SimConfig, MAX_AGENTS, MAX_SPEED};
use crate::motion::{dt_ok, integrate, integrated};
use crate::renorm::{lemma_renormalized_norm, renormalize, renormalized};
use crate::rng::{rng_from_seed, rng_range};
use crate::steering::{steered, steering_pass};
use crate::vec2::{lemma_norm_sq_basics, norm_sq, Vec2};
use crate::MILLI;

verus! {

/// The store state after one full tick from state `s`: motion integration
/// with wraparound first, then the scan-then-apply steering pass over the
/// just-advanced positions.
pub open spec fn ticked(s: Seq<Agent>, c: SimConfig, dt: i64) -> Seq<Agent> {
    steered(integrated(s, c, dt), c)
}

/// The store state after ticking through a whole sequence of elapsed times.
pub open spec fn run(s: Seq<Agent>, c: SimConfig, dts: Seq<i64>) -> Seq<Agent>
    decreases dts.len(),
{
    if dts.len() == 0 {
        s
    } else {
        run(ticked(s, c, dts[0]), c, dts.subrange(1, dts.len() as int))
    }
}

/// Advances the simulation by one frame, in order: motion integration using
/// the previous frame's velocities, per-axis wraparound, then the steering
/// pass computed from the positions already advanced this tick.
pub fn tick(store: &mut AgentStore, c: &SimConfig, dt: i64)
    requires
        old(store).wf(*c),
        dt_ok(*c, dt),
    ensures
        final(store).wf(*c),
        final(store).agents@ == ticked(old(store).agents@, *c, dt),
{
    integrate(store, c, dt);
    steering_pass(store, c);
}

/// The velocity `v` carries speed `sp` up to fixed-point rounding: its
/// squared norm is within `[sp*sp - 4*sp - 1, 2*sp*sp]` and neither component
/// exceeds `sp`.
pub open spec fn holds_speed(v: Vec2, sp: int) -> bool {
    &&& sp * sp - 4 * sp - 1 <= norm_sq(v) <= 2 * sp * sp
    &&& -sp <= v.x <= sp
    &&& -sp <= v.y <= sp
}

/// Populates a store with `agent_count` agents at uniformly random positions
/// inside the world, each moving at the configured initial speed (up to
/// fixed-point rounding) in a random direction. The same seed yields the same
/// population.
pub fn initialize(agent_count: usize, c: &SimConfig, seed: u64) -> (store: AgentStore)
    requires
        c.valid(),
        agent_count <= MAX_AGENTS,
    ensures
        store.wf(*c),
        store.agents@.len() == agent_count,
        forall|i: int| 0 <= i < agent_count ==> holds_speed(
            (#[trigger] store.agents@[i]).velocity,
            c.initial_speed as int,
        ),
{
    let mut rng = rng_from_seed(seed);
    let mut agents: Vec<Agent> = Vec::new();
    let mut k: usize = 0;
    while k < agent_count
        invariant
            agents@.len() == k,
            k <= agent_count <= MAX_AGENTS,
            c.valid(),
            forall|i: int| 0 <= i < k ==> #[trigger] agent_wf(agents@[i], *c),
            forall|i: int| 0 <= i < k ==> (#[trigger] agents@[i]).id == i as u64,
            forall|i: int| 0 <= i < k ==> holds_speed(
                (#[trigger] agents@[i]).velocity,
                c.initial_speed as int,
            ),
        decreases agent_count - k,
    {
        let px = rng_range(&mut rng, -c.half_width, c.half_width + 1);
        let py = rng_range(&mut rng, -c.half_height, c.half_height + 1);
        let hx = rng_range(&mut rng, -MILLI, MILLI + 1);
        let hy = rng_range(&mut rng, -MILLI, MILLI + 1);
        let dir = if hx == 0 && hy == 0 {
            Vec2 { x: MILLI, y: 0 }
        } else {
            Vec2 { x: hx, y: hy }
        };
        proof {
            lemma_norm_sq_basics(dir);
            lemma_renormalized_norm(dir, c.initial_speed as int);
        }
        let vel = renormalize(dir, c.initial_speed);
        agents.push(Agent { id: k as u64, position: Vec2 { x: px, y: py }, velocity: vel });
        k += 1;
    }
    AgentStore { agents }
}

/// One agent's drawable state, handed to a renderer.
#[derive(Clone, Copy, PartialEq, Eq, Structural, Debug)]
pub struct Pose {
    /// The agent's stable identifier.
    pub id: u64,
    /// The agent's position in world space.
    pub position: Vec2,
    /// The agent's facing direction.
    pub heading: Vec2,
}

/// The heading of a velocity: its direction, as a fixed-point vector of
/// magnitude `MILLI` (up to rounding). The zero velocity has no defined
/// direction and yields the zero vector rather than an undefined angle.
pub open spec fn heading_of(v: Vec2) -> Vec2 {
    renormalized(v, MILLI as int)
}

/// Computes the heading of a bounded velocity.
pub fn heading(v: Vec2) -> (h: Vec2)
    requires
        -MAX_SPEED <= v.x <= MAX_SPEED,
        -MAX_SPEED <= v.y <= MAX_SPEED,
    ensures
        h == heading_of(v),
{
    renormalize(v, MILLI)
}

/// Read-only view for a renderer: each agent's identifier, position and
/// heading, in store order. The store is not mutated.
pub fn snapshot(store: &AgentStore, c: &SimConfig) -> (out: Vec<Pose>)
    requires
        store.wf(*c),
    ensures
        out@.len() == store.agents@.len(),
        forall|i: int|
            0 <= i < out@.len() ==> (#[trigger] out@[i]).id == store.agents@[i].id && out@[i].position
                == store.agents@[i].position && out@[i].heading == heading_of(
                store.agents@[i].velocity,
            ),
{
    let ghost s = store.agents@;
    let n = store.agents.len();
    let mut out: Vec<Pose> = Vec::new();
    let mut i: usize = 0;
    while i < n
        invariant
            store.wf(*c),
            store.agents@ == s,
            i <= n,
            n == s.len(),
            out@.len() == i,
            forall|k: int|
                0 <= k < i ==> (#[trigger] out@[k]).id == s[k].id && out@[k].position
                    == s[k].position && out@[k].heading == heading_of(s[k].velocity),
        decreases n - i,
    {
        let a = store.agents[i];
        proof {
            assert(agent_wf(s[i as int], *c));
        }
        let h = heading(a.velocity);
        out.push(Pose { id: a.id, position: a.position, heading: h });
        i += 1;
    }
    out
}

} // verus!
