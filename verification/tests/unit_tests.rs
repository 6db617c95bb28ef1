//! Unit tests for the building blocks: integer square root, wraparound,
//! renormalization, configuration validation, initialization and snapshots.

use flock::agent::{Agent, AgentStore};
use flock::config::{ConfigError, SimConfig};
use flock::math::isqrt;
use flock::motion::wrap_coord_exec;
use flock::renorm::renormalize;
use flock::sim::{heading, initialize, snapshot};
use flock::vec2::{dist_sq_exec, norm_sq_exec, Vec2};

fn base_config() -> SimConfig {
    SimConfig {
        half_width: 1000,
        half_height: 800,
        vision_radius: 80,
        collision_radius: 30,
        alignment_weight: 200,
        cohesion_weight: 200,
        separation_weight: 300,
        initial_speed: 150,
    }
}

#[test]
fn isqrt_exact_values() {
    assert_eq!(isqrt(0), 0);
    assert_eq!(isqrt(1), 1);
    assert_eq!(isqrt(3), 1);
    assert_eq!(isqrt(4), 2);
    assert_eq!(isqrt(2500), 50);
    assert_eq!(isqrt(8468), 92);
    assert_eq!(isqrt(20000), 141);
    assert_eq!(isqrt(10_000_000_000), 100_000);
    assert_eq!(isqrt(2_000_000_000), 44_721);
}

#[test]
fn wrap_coord_each_side() {
    assert_eq!(wrap_coord_exec(101, 100), -100);
    assert_eq!(wrap_coord_exec(-101, 100), 100);
    assert_eq!(wrap_coord_exec(100, 100), 100);
    assert_eq!(wrap_coord_exec(-100, 100), -100);
    assert_eq!(wrap_coord_exec(37, 100), 37);
}

#[test]
fn squared_metrics() {
    assert_eq!(norm_sq_exec(Vec2 { x: 3, y: -4 }), 25);
    assert_eq!(norm_sq_exec(Vec2 { x: 0, y: 0 }), 0);
    assert_eq!(dist_sq_exec(Vec2 { x: -10, y: 0 }, Vec2 { x: 10, y: 0 }), 400);
    assert_eq!(dist_sq_exec(Vec2 { x: 25, y: 0 }, Vec2 { x: 0, y: 25 }), 1250);
}

#[test]
fn renormalize_scales_and_guards_zero() {
    assert_eq!(renormalize(Vec2 { x: 3, y: 4 }, 100), Vec2 { x: 60, y: 80 });
    assert_eq!(renormalize(Vec2 { x: 1000, y: 0 }, 150), Vec2 { x: 150, y: 0 });
    assert_eq!(renormalize(Vec2 { x: -3, y: 4 }, 100), Vec2 { x: -60, y: 80 });
    // The zero vector has no direction and is returned unchanged.
    assert_eq!(renormalize(Vec2 { x: 0, y: 0 }, 150), Vec2 { x: 0, y: 0 });
}

#[test]
fn heading_is_unit_direction() {
    assert_eq!(heading(Vec2 { x: 300, y: 400 }), Vec2 { x: 600, y: 800 });
    assert_eq!(heading(Vec2 { x: 0, y: -70 }), Vec2 { x: 0, y: -1000 });
    assert_eq!(heading(Vec2 { x: 0, y: 0 }), Vec2 { x: 0, y: 0 });
}

#[test]
fn validate_accepts_good_config() {
    assert_eq!(base_config().validate(), Ok(()));
}

#[test]
fn validate_rejects_non_positive_extent() {
    let mut c = base_config();
    c.half_width = 0;
    assert_eq!(c.validate(), Err(ConfigError::NonPositiveExtent));
    let mut c2 = base_config();
    c2.half_height = -5;
    assert_eq!(c2.validate(), Err(ConfigError::NonPositiveExtent));
}

#[test]
fn validate_rejects_non_positive_radius() {
    let mut c = base_config();
    c.vision_radius = 0;
    assert_eq!(c.validate(), Err(ConfigError::NonPositiveRadius));
    let mut c2 = base_config();
    c2.collision_radius = -1;
    assert_eq!(c2.validate(), Err(ConfigError::NonPositiveRadius));
}

#[test]
fn validate_rejects_collision_over_vision() {
    let mut c = base_config();
    c.collision_radius = 81;
    assert_eq!(c.validate(), Err(ConfigError::CollisionExceedsVision));
}

#[test]
fn validate_rejects_out_of_range_parameters() {
    let mut c = base_config();
    c.separation_weight = 2000;
    assert_eq!(c.validate(), Err(ConfigError::ParameterOutOfRange));
    let mut c2 = base_config();
    c2.initial_speed = 0;
    assert_eq!(c2.validate(), Err(ConfigError::ParameterOutOfRange));
    let mut c3 = base_config();
    c3.half_width = 200_000;
    assert_eq!(c3.validate(), Err(ConfigError::ParameterOutOfRange));
}

#[test]
fn recommended_parameters() {
    let c = SimConfig::recommended(640, 360);
    assert_eq!(c.vision_radius, 80);
    assert_eq!(c.collision_radius, 30);
    assert_eq!(c.alignment_weight, 200);
    assert_eq!(c.cohesion_weight, 200);
    assert_eq!(c.separation_weight, 300);
    assert_eq!(c.initial_speed, 150);
    assert_eq!(c.validate(), Ok(()));
}

#[test]
fn initialize_populates_world() {
    let c = base_config();
    let store = initialize(50, &c, 42);
    assert_eq!(store.agents.len(), 50);
    for (k, a) in store.agents.iter().enumerate() {
        assert_eq!(a.id, k as u64);
        assert!(-c.half_width <= a.position.x && a.position.x <= c.half_width);
        assert!(-c.half_height <= a.position.y && a.position.y <= c.half_height);
        // Each agent moves at the initial speed, up to fixed-point rounding.
        let n = a.velocity.x * a.velocity.x + a.velocity.y * a.velocity.y;
        let s = c.initial_speed;
        assert!(n >= s * s - 4 * s - 1);
        assert!(n <= 2 * s * s);
    }
}

#[test]
fn initialize_is_seeded() {
    let c = base_config();
    let a = initialize(10, &c, 1);
    let b = initialize(10, &c, 1);
    assert_eq!(a.agents, b.agents);
    // A different seed actually reaches the generator: the populations differ
    // and agents are spread out rather than constant.
    let d = initialize(10, &c, 2);
    assert_ne!(a.agents, d.agents);
    let first = a.agents[0].position;
    assert!(a.agents.iter().any(|x| x.position != first));
}

#[test]
fn snapshot_reports_poses() {
    let c = base_config();
    let store = AgentStore {
        agents: vec![
            Agent {
                id: 0,
                position: Vec2 { x: 5, y: -7 },
                velocity: Vec2 { x: 300, y: 400 },
            },
            Agent {
                id: 1,
                position: Vec2 { x: 0, y: 0 },
                velocity: Vec2 { x: 0, y: 0 },
            },
        ],
    };
    let poses = snapshot(&store, &c);
    assert_eq!(poses.len(), 2);
    assert_eq!(poses[0].id, 0);
    assert_eq!(poses[0].position, Vec2 { x: 5, y: -7 });
    assert_eq!(poses[0].heading, Vec2 { x: 600, y: 800 });
    assert_eq!(poses[1].heading, Vec2 { x: 0, y: 0 });
}
