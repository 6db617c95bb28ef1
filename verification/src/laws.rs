//! The simulation's global guarantees, stated and proved over the
//! specification functions that the executable contracts are written in.

use vstd::prelude::*;
use crate::agent::{agent_wf, agents_wf, in_world, Agent};
use crate::config::{SimConfig, MAX_SPEED};
use crate::math::{div_tz, lemma_div_tz_bound, lemma_sqrt_floor_exists, sqrt_floor};
use crate::motion::{dt_ok, integrate_agent, integrated, lemma_wrap_in_bounds};
use crate::renorm::lemma_renormalized_norm;
use crate::sim::{run, ticked};
use crate::steering::{
    adjusted_velocity, alignment_instruction, cohesion_instruction, flockmate_count, in_vision,
    instructions_spec, separation_instructions, steer_agent, steered_velocity,
    SteeringInstruction,
};
use crate::vec2::{dist_sq, norm_sq, Vec2};
use crate::MILLI;

verus! {

/// Speed preservation: a steering pass changes an agent's heading, never its
/// speed. Applying a nonempty instruction batch rescales the adjusted
/// velocity back to the agent's previous speed `sigma`, exactly up to
/// fixed-point rounding: the squared norm of the result lies within
/// `[sigma*sigma - 4*sigma - 1, 2*sigma*sigma]`. This holds whenever the
/// previous speed is nonzero and within the supported range, and the weighted
/// sum does not cancel the velocity to exactly zero (a cancelled or empty
/// batch leaves the velocity unchanged instead).
pub proof fn lemma_speed_preservation(v: Vec2, instrs: Seq<SteeringInstruction>)
    requires
        instrs.len() > 0,
        norm_sq(v) > 0,
        sqrt_floor(norm_sq(v)) <= MAX_SPEED,
        norm_sq(adjusted_velocity(v, instrs)) > 0,
    ensures
        ({
            let sigma = sqrt_floor(norm_sq(v));
            let r = steered_velocity(v, instrs);
            sigma * sigma - 4 * sigma - 1 <= norm_sq(r) && norm_sq(r) <= 2 * sigma * sigma
        }),
{
    lemma_sqrt_floor_exists(norm_sq(v));
    let sigma = sqrt_floor(norm_sq(v));
    lemma_renormalized_norm(adjusted_velocity(v, instrs), sigma);
    assert(steered_velocity(v, instrs) == crate::renorm::renormalized(
        adjusted_velocity(v, instrs),
        sigma,
    ));
}

/// Wraparound invariant: starting from any well-formed store, one tick leaves
/// every position coordinate within `[-half_extent, +half_extent]` on both
/// axes, for any accepted elapsed time (under which a single-tick
/// displacement is below one world width).
pub proof fn lemma_tick_wraparound(s: Seq<Agent>, c: SimConfig, dt: i64, i: int)
    requires
        c.valid(),
        agents_wf(s, c),
        dt_ok(c, dt),
        0 <= i < s.len(),
    ensures
        in_world(ticked(s, c, dt)[i], c),
{
    assert(agent_wf(s[i], c));
    let a = s[i];
    let vx = a.velocity.x as int;
    let vy = a.velocity.y as int;
    let step = dt as int;
    assert(-(100_000 * step) <= vx * step <= 100_000 * step && -(100_000 * step) <= vy * step
        <= 100_000 * step) by (nonlinear_arith)
        requires
            -100_000 <= vx <= 100_000,
            -100_000 <= vy <= 100_000,
            0 <= step,
    ;
    assert((MILLI as int) * (2 * c.half_width) == 2000 * c.half_width);
    assert((MILLI as int) * (2 * c.half_height) == 2000 * c.half_height);
    lemma_div_tz_bound(vx * step, MILLI as int, 2 * c.half_width);
    lemma_div_tz_bound(vy * step, MILLI as int, 2 * c.half_height);
    lemma_wrap_in_bounds(a.position.x + div_tz(vx * step, MILLI as int), c.half_width as int);
    lemma_wrap_in_bounds(a.position.y + div_tz(vy * step, MILLI as int), c.half_height as int);
    assert(ticked(s, c, dt)[i] == steer_agent(integrated(s, c, dt), c, i));
    assert(integrated(s, c, dt)[i] == integrate_agent(s[i], c, dt));
}

/// Determinism: one tick, and hence a whole run, is a pure function of the
/// starting state and the elapsed-time sequence — equal inputs give
/// bit-for-bit equal results, with no hidden randomness after
/// initialization. `tick` ensures the store equals `ticked` of its inputs,
/// so repeated executable runs from equal stores coincide as well.
pub proof fn lemma_run_deterministic(
    s1: Seq<Agent>,
    s2: Seq<Agent>,
    c: SimConfig,
    dts1: Seq<i64>,
    dts2: Seq<i64>,
)
    requires
        s1 == s2,
        dts1 == dts2,
    ensures
        run(s1, c, dts1) == run(s2, c, dts2),
{
}

/// Neighbor symmetry: distance is symmetric, so agent `b` is within the
/// vision radius of agent `a` exactly when `a` is within it of `b`.
pub proof fn lemma_neighbor_symmetry(c: SimConfig, a: Agent, b: Agent)
    ensures
        in_vision(c, a, b) == in_vision(c, b, a),
{
    assert(dist_sq(a.position, b.position) == dist_sq(b.position, a.position))
        by (nonlinear_arith);
}

/// A flockmate count never goes negative.
proof fn lemma_flockmate_count_nonneg(s: Seq<Agent>, c: SimConfig, i: int, k: int)
    ensures
        flockmate_count(s, c, i, k) >= 0,
    decreases k,
{
    if k > 0 {
        lemma_flockmate_count_nonneg(s, c, i, k - 1);
    }
}

/// A visible flockmate is counted: any scan prefix that includes agent `j`
/// counts at least one flockmate for agent `i`.
proof fn lemma_flockmate_counted(s: Seq<Agent>, c: SimConfig, i: int, j: int, k: int)
    requires
        0 <= j < k,
        j != i,
        in_vision(c, s[i], s[j]),
    ensures
        flockmate_count(s, c, i, k) >= 1,
    decreases k,
{
    if k - 1 == j {
        lemma_flockmate_count_nonneg(s, c, i, k - 1);
    } else {
        lemma_flockmate_counted(s, c, i, j, k - 1);
    }
}

/// Reciprocal contributions: two mutually visible agents both count a
/// flockmate in the same frame, so each of them receives an alignment and a
/// cohesion instruction computed from the other's state.
pub proof fn lemma_reciprocal_contributions(s: Seq<Agent>, c: SimConfig, i: int, j: int)
    requires
        0 <= i < s.len(),
        0 <= j < s.len(),
        i != j,
        in_vision(c, s[i], s[j]),
    ensures
        flockmate_count(s, c, i, s.len() as int) >= 1,
        flockmate_count(s, c, j, s.len() as int) >= 1,
        instructions_spec(s, c, i).len() >= 2,
        instructions_spec(s, c, j).len() >= 2,
        instructions_spec(s, c, i).last() == cohesion_instruction(s, c, i),
        instructions_spec(s, c, j).last() == cohesion_instruction(s, c, j),
        instructions_spec(s, c, i)[instructions_spec(s, c, i).len() - 2] == alignment_instruction(
            s,
            c,
            i,
        ),
        instructions_spec(s, c, j)[instructions_spec(s, c, j).len() - 2] == alignment_instruction(
            s,
            c,
            j,
        ),
{
    lemma_neighbor_symmetry(c, s[i], s[j]);
    lemma_flockmate_counted(s, c, i, j, s.len() as int);
    lemma_flockmate_counted(s, c, j, i, s.len() as int);
}

/// With no agent within vision, no separation instruction is emitted either
/// (the collision radius never exceeds the vision radius) and no flockmate is
/// counted.
proof fn lemma_no_neighbors_no_instructions(s: Seq<Agent>, c: SimConfig, i: int, k: int)
    requires
        c.valid(),
        0 <= i,
        k <= s.len(),
        forall|j: int| 0 <= j < s.len() && j != i ==> !in_vision(c, s[i], #[trigger] s[j]),
    ensures
        separation_instructions(s, c, i, k).len() == 0,
        flockmate_count(s, c, i, k) == 0,
    decreases k,
{
    if k > 0 {
        lemma_no_neighbors_no_instructions(s, c, i, k - 1);
        if k - 1 != i {
            assert((c.collision_radius as int) * (c.collision_radius as int) <= (
            c.vision_radius as int) * (c.vision_radius as int)) by (nonlinear_arith)
                requires
                    0 < c.collision_radius <= c.vision_radius,
            ;
        }
    }
}

/// An isolated agent flies straight: with no other agent within the vision
/// radius, the steering pass emits no instruction for it and leaves its
/// velocity unchanged in both direction and magnitude.
pub proof fn lemma_isolated_agent(s: Seq<Agent>, c: SimConfig, i: int)
    requires
        c.valid(),
        0 <= i < s.len(),
        forall|j: int| 0 <= j < s.len() && j != i ==> !in_vision(c, s[i], #[trigger] s[j]),
    ensures
        instructions_spec(s, c, i).len() == 0,
        steer_agent(s, c, i) == s[i],
{
    lemma_no_neighbors_no_instructions(s, c, i, s.len() as int);
}

} // verus!
