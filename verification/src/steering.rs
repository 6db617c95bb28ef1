//! The flocking engine: the neighbor scan that emits steering instructions,
//! and the application pass that blends them into velocities.

use vstd::prelude::*;
use crate::agent::{agent_wf, Agent, AgentStore};
use crate::config::{SimConfig, MAX_SPEED};
use crate::math::{div_tz, div_tz_exec, isqrt, lemma_div_tz_bound, mul_div_tz, sqrt_floor};
use crate::renorm::{renormalize, renormalized};
use crate::vec2::{dist_sq, dist_sq_exec, norm_sq, norm_sq_exec, Vec2};
use crate::MILLI;

verus! {

/// `b` is a flockmate of `a`: closer than the vision radius.
pub open spec fn in_vision(c: SimConfig, a: Agent, b: Agent) -> bool {
    dist_sq(a.position, b.position) < c.vision_radius * c.vision_radius
}

/// `b` is close enough to `a` to trigger a separation push.
pub open spec fn too_close(c: SimConfig, a: Agent, b: Agent) -> bool {
    dist_sq(a.position, b.position) < c.collision_radius * c.collision_radius
}

/// One transient, per-frame steering adjustment: `direction` scaled by
/// `weight` thousandths is added to the target agent's velocity before the
/// velocity is rescaled back to its previous speed.
#[derive(Clone, Copy, PartialEq, Eq, Structural, Debug)]
pub struct SteeringInstruction {
    /// Identifier of the agent whose velocity the instruction adjusts.
    pub target: u64,
    /// Direction to push the target's velocity toward.
    pub direction: Vec2,
    /// Strength of the push, in thousandths.
    pub weight: i64,
}

/// Direction components within twice the supported world extent, weight in
/// `[0, MILLI]`: every instruction the scan emits satisfies this.
pub open spec fn instr_bounded(ins: SteeringInstruction) -> bool {
    &&& -200_000 <= ins.direction.x <= 200_000
    &&& -200_000 <= ins.direction.y <= 200_000
    &&& 0 <= ins.weight <= MILLI
}

/// The separation instruction pushing agent `i` away from agent `j`.
pub open spec fn sep_instruction(s: Seq<Agent>, c: SimConfig, i: int, j: int) -> SteeringInstruction {
    SteeringInstruction {
        target: s[i].id,
        direction: Vec2 {
            x: (s[i].position.x - s[j].position.x) as i64,
            y: (s[i].position.y - s[j].position.y) as i64,
        },
        weight: c.separation_weight,
    }
}

/// Separation instructions emitted for agent `i` while scanning agents
/// `0 .. k`, in scan order.
pub open spec fn separation_instructions(s: Seq<Agent>, c: SimConfig, i: int, k: int) -> Seq<
    SteeringInstruction,
>
    decreases k,
{
    if k <= 0 {
        Seq::empty()
    } else {
        let rest = separation_instructions(s, c, i, k - 1);
        if k - 1 != i && too_close(c, s[i], s[k - 1]) {
            rest.push(sep_instruction(s, c, i, k - 1))
        } else {
            rest
        }
    }
}

/// How many of the agents `0 .. k` (other than `i` itself) are flockmates of
/// agent `i`.
pub open spec fn flockmate_count(s: Seq<Agent>, c: SimConfig, i: int, k: int) -> int
    decreases k,
{
    if k <= 0 {
        0
    } else {
        flockmate_count(s, c, i, k - 1) + if k - 1 != i && in_vision(c, s[i], s[k - 1]) {
            1int
        } else {
            0int
        }
    }
}

/// Componentwise sum of the velocities of agent `i`'s flockmates among
/// agents `0 .. k`.
pub open spec fn velocity_total(s: Seq<Agent>, c: SimConfig, i: int, k: int) -> (int, int)
    decreases k,
{
    if k <= 0 {
        (0, 0)
    } else {
        let rest = velocity_total(s, c, i, k - 1);
        if k - 1 != i && in_vision(c, s[i], s[k - 1]) {
            (rest.0 + s[k - 1].velocity.x, rest.1 + s[k - 1].velocity.y)
        } else {
            rest
        }
    }
}

/// Componentwise sum of the positions of agent `i`'s flockmates among
/// agents `0 .. k`.
pub open spec fn position_total(s: Seq<Agent>, c: SimConfig, i: int, k: int) -> (int, int)
    decreases k,
{
    if k <= 0 {
        (0, 0)
    } else {
        let rest = position_total(s, c, i, k - 1);
        if k - 1 != i && in_vision(c, s[i], s[k - 1]) {
            (rest.0 + s[k - 1].position.x, rest.1 + s[k - 1].position.y)
        } else {
            rest
        }
    }
}

/// The alignment instruction for agent `i`: direction is the average
/// flockmate velocity (componentwise truncated division by the count).
pub open spec fn alignment_instruction(s: Seq<Agent>, c: SimConfig, i: int) -> SteeringInstruction {
    let cnt = flockmate_count(s, c, i, s.len() as int);
    let vt = velocity_total(s, c, i, s.len() as int);
    SteeringInstruction {
        target: s[i].id,
        direction: Vec2 { x: div_tz(vt.0, cnt) as i64, y: div_tz(vt.1, cnt) as i64 },
        weight: c.alignment_weight,
    }
}

/// The cohesion instruction for agent `i`: direction points from the agent
/// to the average flockmate position.
pub open spec fn cohesion_instruction(s: Seq<Agent>, c: SimConfig, i: int) -> SteeringInstruction {
    let cnt = flockmate_count(s, c, i, s.len() as int);
    let pt = position_total(s, c, i, s.len() as int);
    SteeringInstruction {
        target: s[i].id,
        direction: Vec2 {
            x: (div_tz(pt.0, cnt) - s[i].position.x) as i64,
            y: (div_tz(pt.1, cnt) - s[i].position.y) as i64,
        },
        weight: c.cohesion_weight,
    }
}

/// All instructions targeting agent `i` this frame: one separation push per
/// agent within the collision radius, in scan order, then — only if the agent
/// has at least one flockmate — one alignment and one cohesion instruction.
pub open spec fn instructions_spec(s: Seq<Agent>, c: SimConfig, i: int) -> Seq<
    SteeringInstruction,
> {
    let seps = separation_instructions(s, c, i, s.len() as int);
    if flockmate_count(s, c, i, s.len() as int) > 0 {
        seps.push(alignment_instruction(s, c, i)).push(cohesion_instruction(s, c, i))
    } else {
        seps
    }
}

/// Componentwise sum of `direction * weight / MILLI` over the first `k`
/// instructions, each term truncated toward zero.
pub open spec fn weighted_delta(instrs: Seq<SteeringInstruction>, k: int) -> (int, int)
    decreases k,
{
    if k <= 0 {
        (0, 0)
    } else {
        let rest = weighted_delta(instrs, k - 1);
        (
            rest.0 + div_tz(instrs[k - 1].direction.x * instrs[k - 1].weight, MILLI as int),
            rest.1 + div_tz(instrs[k - 1].direction.y * instrs[k - 1].weight, MILLI as int),
        )
    }
}

/// The velocity with the whole weighted instruction batch summed in, before
/// rescaling.
pub open spec fn adjusted_velocity(v: Vec2, instrs: Seq<SteeringInstruction>) -> Vec2 {
    let d = weighted_delta(instrs, instrs.len() as int);
    Vec2 { x: (v.x + d.0) as i64, y: (v.y + d.1) as i64 }
}

/// The velocity of an agent after its instructions are applied: the weighted
/// directions are summed into the velocity, and the result is rescaled to the
/// agent's previous speed (capped at `MAX_SPEED`). An agent with no
/// instructions, or whose adjusted velocity cancels to exactly zero, keeps
/// its velocity unchanged.
pub open spec fn steered_velocity(v: Vec2, instrs: Seq<SteeringInstruction>) -> Vec2 {
    if instrs.len() == 0 {
        v
    } else {
        let sum = adjusted_velocity(v, instrs);
        if norm_sq(sum) == 0 {
            v
        } else {
            let sigma = sqrt_floor(norm_sq(v));
            let t = if sigma > MAX_SPEED {
                MAX_SPEED as int
            } else {
                sigma
            };
            renormalized(sum, t)
        }
    }
}

/// Agent `i` after the steering pass: same identifier and position, steered
/// velocity.
pub open spec fn steer_agent(s: Seq<Agent>, c: SimConfig, i: int) -> Agent {
    Agent { velocity: steered_velocity(s[i].velocity, instructions_spec(s, c, i)), ..s[i] }
}

/// The whole store after one scan-then-apply steering pass over the frozen
/// frame-start state `s`.
pub open spec fn steered(s: Seq<Agent>, c: SimConfig) -> Seq<Agent> {
    Seq::new(s.len(), |i: int| steer_agent(s, c, i))
}

/// Scans every other agent and returns the steering instructions targeting
/// agent `i`, reading only frame-start state.
pub fn instructions_for(store: &AgentStore, c: &SimConfig, i: usize) -> (out: Vec<
    SteeringInstruction,
>)
    requires
        store.wf(*c),
        i < store.agents@.len(),
    ensures
        out@ == instructions_spec(store.agents@, *c, i as int),
        out@.len() <= store.agents@.len() + 1,
        forall|k: int| 0 <= k < out@.len() ==> instr_bounded(#[trigger] out@[k]),
{
    let ghost s = store.agents@;
    let n = store.agents.len();
    let a = store.agents[i];
    proof {
        assert(agent_wf(s[i as int], *c));
        assert(0 <= (c.vision_radius as int) * (c.vision_radius as int) <= 10_000_000_000
            && 0 <= (c.collision_radius as int) * (c.collision_radius as int) <= 10_000_000_000)
            by (nonlinear_arith)
            requires
                0 < c.collision_radius <= c.vision_radius <= 100_000,
        ;
    }
    let vision_sq: i64 = c.vision_radius * c.vision_radius;
    let collision_sq: i64 = c.collision_radius * c.collision_radius;
    let mut out: Vec<SteeringInstruction> = Vec::new();
    let mut cnt: i64 = 0;
    let mut vtx: i64 = 0;
    let mut vty: i64 = 0;
    let mut ptx: i64 = 0;
    let mut pty: i64 = 0;
    let mut j: usize = 0;
    while j < n
        invariant
            store.wf(*c),
            store.agents@ == s,
            i < n,
            j <= n,
            n == s.len(),
            a == s[i as int],
            vision_sq as int == c.vision_radius * c.vision_radius,
            collision_sq as int == c.collision_radius * c.collision_radius,
            out@ == separation_instructions(s, *c, i as int, j as int),
            out@.len() <= j,
            (i as int) < j as int ==> out@.len() <= j - 1,
            forall|k: int| 0 <= k < out@.len() ==> instr_bounded(#[trigger] out@[k]),
            cnt as int == flockmate_count(s, *c, i as int, j as int),
            0 <= cnt <= j,
            vtx as int == velocity_total(s, *c, i as int, j as int).0,
            vty as int == velocity_total(s, *c, i as int, j as int).1,
            ptx as int == position_total(s, *c, i as int, j as int).0,
            pty as int == position_total(s, *c, i as int, j as int).1,
            -(cnt as int) * 100_000 <= vtx as int <= (cnt as int) * 100_000,
            -(cnt as int) * 100_000 <= vty as int <= (cnt as int) * 100_000,
            -(cnt as int) * 100_000 <= ptx as int <= (cnt as int) * 100_000,
            -(cnt as int) * 100_000 <= pty as int <= (cnt as int) * 100_000,
        decreases n - j,
    {
        if j != i {
            let b = store.agents[j];
            proof {
                assert(agent_wf(s[i as int], *c));
                assert(agent_wf(s[j as int], *c));
            }
            let d = dist_sq_exec(a.position, b.position);
            if d < vision_sq {
                cnt = cnt + 1;
                vtx = vtx + b.velocity.x;
                vty = vty + b.velocity.y;
                ptx = ptx + b.position.x;
                pty = pty + b.position.y;
            }
            if d < collision_sq {
                out.push(
                    SteeringInstruction {
                        target: a.id,
                        direction: Vec2 {
                            x: a.position.x - b.position.x,
                            y: a.position.y - b.position.y,
                        },
                        weight: c.separation_weight,
                    },
                );
            }
        }
        j += 1;
    }
    if cnt > 0 {
        proof {
            lemma_div_tz_bound(vtx as int, cnt as int, 100_000);
            lemma_div_tz_bound(vty as int, cnt as int, 100_000);
            lemma_div_tz_bound(ptx as int, cnt as int, 100_000);
            lemma_div_tz_bound(pty as int, cnt as int, 100_000);
        }
        let avx = div_tz_exec(vtx, cnt);
        let avy = div_tz_exec(vty, cnt);
        out.push(
            SteeringInstruction {
                target: a.id,
                direction: Vec2 { x: avx, y: avy },
                weight: c.alignment_weight,
            },
        );
        let apx = div_tz_exec(ptx, cnt);
        let apy = div_tz_exec(pty, cnt);
        out.push(
            SteeringInstruction {
                target: a.id,
                direction: Vec2 { x: apx - a.position.x, y: apy - a.position.y },
                weight: c.cohesion_weight,
            },
        );
    }
    out
}

/// Applies a batch of instructions to one agent's frame-start velocity,
/// returning the steered velocity.
pub fn apply_instructions(v: Vec2, instrs: &Vec<SteeringInstruction>) -> (r: Vec2)
    requires
        -MAX_SPEED <= v.x <= MAX_SPEED,
        -MAX_SPEED <= v.y <= MAX_SPEED,
        instrs@.len() <= 1030,
        forall|k: int| 0 <= k < instrs@.len() ==> instr_bounded(#[trigger] instrs@[k]),
    ensures
        r == steered_velocity(v, instrs@),
        -MAX_SPEED <= r.x <= MAX_SPEED,
        -MAX_SPEED <= r.y <= MAX_SPEED,
{
    let m = instrs.len();
    if m == 0 {
        return v;
    }
    let mut dx: i64 = 0;
    let mut dy: i64 = 0;
    let mut k: usize = 0;
    while k < m
        invariant
            k <= m,
            m == instrs@.len() <= 1030,
            forall|q: int| 0 <= q < instrs@.len() ==> instr_bounded(#[trigger] instrs@[q]),
            dx as int == weighted_delta(instrs@, k as int).0,
            dy as int == weighted_delta(instrs@, k as int).1,
            -(k as int) * 200_000 <= dx as int <= (k as int) * 200_000,
            -(k as int) * 200_000 <= dy as int <= (k as int) * 200_000,
        decreases m - k,
    {
        let ins = instrs[k];
        proof {
            let w = ins.weight as int;
            assert(-(200_000 * 1000) <= (ins.direction.x as int) * w <= 200_000 * 1000 && -(
            200_000 * 1000) <= (ins.direction.y as int) * w <= 200_000 * 1000) by (nonlinear_arith)
                requires
                    -200_000 <= ins.direction.x <= 200_000,
                    -200_000 <= ins.direction.y <= 200_000,
                    0 <= w <= 1000,
            ;
            assert((MILLI as int) * 200_000 == 200_000 * 1000);
            lemma_div_tz_bound((ins.direction.x as int) * (ins.weight as int), MILLI as int, 200_000);
            lemma_div_tz_bound((ins.direction.y as int) * (ins.weight as int), MILLI as int, 200_000);
        }
        let tx = mul_div_tz(ins.direction.x, ins.weight, MILLI);
        let ty = mul_div_tz(ins.direction.y, ins.weight, MILLI);
        dx = dx + tx;
        dy = dy + ty;
        k += 1;
    }
    let sx = v.x + dx;
    let sy = v.y + dy;
    let sum = Vec2 { x: sx, y: sy };
    let nsum = norm_sq_exec(sum);
    if nsum == 0 {
        return v;
    }
    let nv = norm_sq_exec(v);
    let sigma = isqrt(nv);
    let t: i64 = if sigma > MAX_SPEED {
        MAX_SPEED
    } else {
        sigma
    };
    renormalize(sum, t)
}

/// One full steering pass: scans every agent against the frozen frame-start
/// state, then writes every steered velocity back. Positions and identifiers
/// are untouched; the scan never observes a write from the same pass.
pub fn steering_pass(store: &mut AgentStore, c: &SimConfig)
    requires
        old(store).wf(*c),
    ensures
        final(store).wf(*c),
        final(store).agents@ == steered(old(store).agents@, *c),
{
    let ghost s = store.agents@;
    let n = store.agents.len();
    let mut out: Vec<Agent> = Vec::new();
    let mut i: usize = 0;
    while i < n
        invariant
            store.wf(*c),
            store.agents@ == s,
            i <= n,
            n == s.len(),
            out@.len() == i,
            forall|k: int| 0 <= k < i ==> out@[k] == steer_agent(s, *c, k),
            forall|k: int| 0 <= k < i ==> #[trigger] agent_wf(out@[k], *c),
        decreases n - i,
    {
        let instrs = instructions_for(store, c, i);
        let a = store.agents[i];
        proof {
            assert(agent_wf(s[i as int], *c));
        }
        let nv = apply_instructions(a.velocity, &instrs);
        out.push(Agent { id: a.id, position: a.position, velocity: nv });
        i += 1;
    }
    store.agents = out;
    proof {
        assert(store.agents@ =~= steered(s, *c));
    }
}

} // verus!
