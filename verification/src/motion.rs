//! Motion integration and toroidal wraparound.

use vstd::prelude::*;
use crate::agent::{agent_wf, Agent, AgentStore};
use crate::config::{SimConfig, MAX_EXTENT};
use crate::math::{div_tz, lemma_div_tz_bound, mul_div_tz};
use crate::vec2::Vec2;
use crate::MILLI;

verus! {

/// One unconditional wrap per axis: a coordinate past `+h` restarts at `-h`,
/// one past `-h` restarts at `+h`.
pub open spec fn wrap_coord(x: int, h: int) -> int {
    if x > h {
        -h
    } else if x < -h {
        h
    } else {
        x
    }
}

/// An elapsed time (in thousandths) the integrator accepts: nonnegative, and
/// small enough that no supported speed (`MAX_SPEED`, here `100_000`) can move
/// an agent more than one world width (`2 * half_extent`) on either axis in a
/// single step, displacement being `speed * dt / MILLI`.
pub open spec fn dt_ok(c: SimConfig, dt: i64) -> bool {
    &&& 0 <= dt <= 2000
    &&& 100_000 * dt <= 2000 * c.half_width
    &&& 100_000 * dt <= 2000 * c.half_height
}

/// One agent advanced by `velocity * dt / MILLI` and wrapped on both axes;
/// velocity and identifier are untouched.
pub open spec fn integrate_agent(a: Agent, c: SimConfig, dt: i64) -> Agent {
    Agent {
        position: Vec2 {
            x: wrap_coord(a.position.x + div_tz(a.velocity.x * dt, MILLI as int), c.half_width as int) as i64,
            y: wrap_coord(a.position.y + div_tz(a.velocity.y * dt, MILLI as int), c.half_height as int) as i64,
        },
        ..a
    }
}

/// The whole store advanced by one motion step.
pub open spec fn integrated(s: Seq<Agent>, c: SimConfig, dt: i64) -> Seq<Agent> {
    Seq::new(s.len(), |i: int| integrate_agent(s[i], c, dt))
}

/// A wrapped coordinate lies inside `[-h, h]` whenever the unwrapped one was
/// within one world width (`2h`) of that interval.
pub proof fn lemma_wrap_in_bounds(x: int, h: int)
    requires
        h > 0,
        -3 * h <= x <= 3 * h,
    ensures
        -h <= wrap_coord(x, h) <= h,
{
}

/// Computes `wrap_coord` on machine integers.
pub fn wrap_coord_exec(x: i64, h: i64) -> (r: i64)
    requires
        0 < h <= MAX_EXTENT,
        -3 * (MAX_EXTENT as int) <= x <= 3 * (MAX_EXTENT as int),
    ensures
        r as int == wrap_coord(x as int, h as int),
        -h <= r <= h || r == x,
{
    if x > h {
        -h
    } else if x < -h {
        h
    } else {
        x
    }
}

/// Advances every agent's position by `velocity * dt / MILLI` and applies
/// the per-axis wraparound; velocities and identifiers are untouched.
pub fn integrate(store: &mut AgentStore, c: &SimConfig, dt: i64)
    requires
        old(store).wf(*c),
        dt_ok(*c, dt),
    ensures
        final(store).wf(*c),
        final(store).agents@ == integrated(old(store).agents@, *c, dt),
{
    let ghost s = store.agents@;
    let n = store.agents.len();
    let mut out: Vec<Agent> = Vec::new();
    let mut i: usize = 0;
    while i < n
        invariant
            store.wf(*c),
            store.agents@ == s,
            dt_ok(*c, dt),
            i <= n,
            n == s.len(),
            out@.len() == i,
            forall|k: int| 0 <= k < i ==> out@[k] == integrate_agent(s[k], *c, dt),
            forall|k: int| 0 <= k < i ==> #[trigger] agent_wf(out@[k], *c),
        decreases n - i,
    {
        let a = store.agents[i];
        proof {
            assert(agent_wf(s[i as int], *c));
        }
        let sx = mul_div_tz(a.velocity.x, dt, MILLI);
        let sy = mul_div_tz(a.velocity.y, dt, MILLI);
        proof {
            let vx = a.velocity.x as int;
            let vy = a.velocity.y as int;
            let step = dt as int;
            assert(-(100_000 * step) <= vx * step <= 100_000 * step && -(100_000 * step) <= vy
                * step <= 100_000 * step) by (nonlinear_arith)
                requires
                    -100_000 <= vx <= 100_000,
                    -100_000 <= vy <= 100_000,
                    0 <= step,
            ;
            assert((MILLI as int) * (2 * c.half_width) == 2000 * c.half_width);
            assert((MILLI as int) * (2 * c.half_height) == 2000 * c.half_height);
            lemma_div_tz_bound((a.velocity.x as int) * dt, MILLI as int, 2 * c.half_width);
            lemma_div_tz_bound((a.velocity.y as int) * dt, MILLI as int, 2 * c.half_height);
        }
        let px = wrap_coord_exec(a.position.x + sx, c.half_width);
        let py = wrap_coord_exec(a.position.y + sy, c.half_height);
        proof {
            lemma_wrap_in_bounds(a.position.x + sx, c.half_width as int);
            lemma_wrap_in_bounds(a.position.y + sy, c.half_height as int);
        }
        out.push(Agent { id: a.id, position: Vec2 { x: px, y: py }, velocity: a.velocity });
        i += 1;
    }
    store.agents = out;
    proof {
        assert(store.agents@ =~= integrated(s, *c, dt));
    }
}

} // verus!
