//! Scenario tests driving whole ticks of the simulation.

use flock::agent::{Agent, AgentStore};
use flock::config::SimConfig;
use flock::sim::{initialize, tick};
use flock::steering::instructions_for;
use flock::vec2::Vec2;

fn config(half: i64, vision: i64, collision: i64) -> SimConfig {
    SimConfig {
        half_width: half,
        half_height: half,
        vision_radius: vision,
        collision_radius: collision,
        alignment_weight: 200,
        cohesion_weight: 200,
        separation_weight: 300,
        initial_speed: 150,
    }
}

fn agent(id: u64, px: i64, py: i64, vx: i64, vy: i64) -> Agent {
    Agent {
        id,
        position: Vec2 { x: px, y: py },
        velocity: Vec2 { x: vx, y: vy },
    }
}

fn norm_sq(v: Vec2) -> i64 {
    v.x * v.x + v.y * v.y
}

/// Two agents exactly `collision_radius / 2` apart, moving head-on at equal
/// speed: both receive a separation instruction pushing them apart, and
/// neither agent's speed changes.
#[test]
fn head_on_pair_separation() {
    let c = config(1000, 100, 40);
    assert!(c.validate().is_ok());
    let mut store = AgentStore {
        agents: vec![agent(0, -10, 0, 50, 0), agent(1, 10, 0, -50, 0)],
    };

    let instrs0 = instructions_for(&store, &c, 0);
    let instrs1 = instructions_for(&store, &c, 1);
    // Each agent gets one separation, one alignment, one cohesion instruction.
    assert_eq!(instrs0.len(), 3);
    assert_eq!(instrs1.len(), 3);
    // The separation instruction pushes away from the other agent.
    assert_eq!(instrs0[0].weight, 300);
    assert_eq!(instrs0[0].direction, Vec2 { x: -20, y: 0 });
    assert_eq!(instrs0[0].target, 0);
    assert_eq!(instrs1[0].weight, 300);
    assert_eq!(instrs1[0].direction, Vec2 { x: 20, y: 0 });
    assert_eq!(instrs1[0].target, 1);

    tick(&mut store, &c, 0);
    // Speeds are exactly preserved.
    assert_eq!(norm_sq(store.agents[0].velocity), 2500);
    assert_eq!(norm_sq(store.agents[1].velocity), 2500);
    assert_eq!(store.agents[0].velocity, Vec2 { x: 50, y: 0 });
    assert_eq!(store.agents[1].velocity, Vec2 { x: -50, y: 0 });
}

/// A single isolated agent flies straight: velocity unchanged, position
/// advanced by `velocity * dt / 1000`.
#[test]
fn isolated_agent_flies_straight() {
    let c = config(5000, 100, 40);
    let mut store = AgentStore {
        agents: vec![agent(0, 10, 20, 30, 40)],
    };
    tick(&mut store, &c, 100);
    assert_eq!(store.agents[0].velocity, Vec2 { x: 30, y: 40 });
    assert_eq!(store.agents[0].position, Vec2 { x: 13, y: 24 });
}

/// Two distant agents (outside each other's vision) are both unaffected.
#[test]
fn distant_agents_unaffected() {
    let c = config(5000, 100, 40);
    let mut store = AgentStore {
        agents: vec![agent(0, -4000, 0, 100, 0), agent(1, 4000, 0, -100, 0)],
    };
    tick(&mut store, &c, 100);
    assert_eq!(store.agents[0].velocity, Vec2 { x: 100, y: 0 });
    assert_eq!(store.agents[1].velocity, Vec2 { x: -100, y: 0 });
    assert_eq!(store.agents[0].position, Vec2 { x: -3990, y: 0 });
    assert_eq!(store.agents[1].position, Vec2 { x: 3990, y: 0 });
}

/// Motion that carries an agent past `+half_extent` wraps its x-coordinate to
/// `-half_extent`; y is unaffected.
#[test]
fn wraparound_resets_coordinate() {
    let c = config(5000, 100, 40);
    let mut store = AgentStore {
        agents: vec![agent(0, 2001, 0, 30000, 0)],
    };
    // After integration the agent stands at 2001 + 3000 = 5001, one unit past
    // the edge.
    tick(&mut store, &c, 100);
    assert_eq!(store.agents[0].position, Vec2 { x: -5000, y: 0 });
    assert_eq!(store.agents[0].velocity, Vec2 { x: 30000, y: 0 });
}

/// Three mutual flockmates (none within the collision radius) with headings
/// `(1,0)`, `(0,1)`, `(-1,-1)` scaled: one tick turns each velocity toward
/// the group average and centroid, at unchanged speed up to rounding.
#[test]
fn triangle_flock_aligns_and_coheres() {
    let c = config(1000, 100, 20);
    let mut store = AgentStore {
        agents: vec![
            agent(0, 0, 0, 100, 0),
            agent(1, 25, 0, 0, 100),
            agent(2, 0, 25, -100, -100),
        ],
    };
    tick(&mut store, &c, 0);
    assert_eq!(store.agents[0].velocity, Vec2 { x: 100, y: 2 });
    assert_eq!(store.agents[1].velocity, Vec2 { x: -5, y: 100 });
    assert_eq!(store.agents[2].velocity, Vec2 { x: -96, y: -103 });
    // Positions did not move (dt = 0), identifiers are stable.
    assert_eq!(store.agents[0].position, Vec2 { x: 0, y: 0 });
    assert_eq!(store.agents[1].id, 1);
    // Speed preservation within rounding: squared speeds stay in
    // [s*s - 4*s - 1, 2*s*s] of the previous speed s.
    assert_eq!(norm_sq(store.agents[0].velocity), 10004);
    let s0 = 100i64;
    assert!(norm_sq(store.agents[0].velocity) >= s0 * s0 - 4 * s0 - 1);
    assert!(norm_sq(store.agents[0].velocity) <= 2 * s0 * s0);
    let s2 = 141i64; // floor of |(-100, -100)|
    assert!(norm_sq(store.agents[2].velocity) >= s2 * s2 - 4 * s2 - 1);
    assert!(norm_sq(store.agents[2].velocity) <= 2 * s2 * s2);
}

/// Mutually visible agents contribute to each other in the same frame: both
/// receive alignment and cohesion instructions built from the other's state.
#[test]
fn neighbor_symmetry_reciprocal_instructions() {
    let c = config(1000, 100, 20);
    let store = AgentStore {
        agents: vec![agent(0, -30, 0, 40, 0), agent(1, 30, 0, 0, 40)],
    };
    let instrs0 = instructions_for(&store, &c, 0);
    let instrs1 = instructions_for(&store, &c, 1);
    // Distance 60 is below vision 100 for both, above collision 20 for both.
    assert_eq!(instrs0.len(), 2);
    assert_eq!(instrs1.len(), 2);
    // Alignment toward the other's velocity, cohesion toward the other's
    // position.
    assert_eq!(instrs0[0].direction, Vec2 { x: 0, y: 40 });
    assert_eq!(instrs0[0].weight, 200);
    assert_eq!(instrs0[1].direction, Vec2 { x: 60, y: 0 });
    assert_eq!(instrs1[0].direction, Vec2 { x: 40, y: 0 });
    assert_eq!(instrs1[1].direction, Vec2 { x: -60, y: 0 });
}

/// Determinism: the same starting state and the same elapsed-time sequence
/// give bit-for-bit identical stores.
#[test]
fn deterministic_replay() {
    let c = config(2000, 100, 30);
    let dts = [16i64, 17, 16, 33, 16];
    let mut a = initialize(20, &c, 99);
    let mut b = initialize(20, &c, 99);
    assert_eq!(a.agents, b.agents);
    for dt in dts {
        tick(&mut a, &c, dt);
        tick(&mut b, &c, dt);
    }
    assert_eq!(a.agents, b.agents);
}

/// Wraparound invariant: after any number of ticks every coordinate stays
/// within the world rectangle.
#[test]
fn positions_stay_in_world() {
    let c = config(2000, 100, 30);
    let mut store = initialize(30, &c, 7);
    for _ in 0..25 {
        tick(&mut store, &c, 33);
        for a in &store.agents {
            assert!(-c.half_width <= a.position.x && a.position.x <= c.half_width);
            assert!(-c.half_height <= a.position.y && a.position.y <= c.half_height);
        }
    }
}
