//! Simulation parameters and their validation.

use vstd::prelude::*;
use crate::MILLI;

verus! {

/// Largest supported half-extent of the world rectangle, and largest
/// supported vision radius.
pub const MAX_EXTENT: i64 = 100_000;

/// Largest supported speed (per velocity component and as a renormalization
/// target).
pub const MAX_SPEED: i64 = 100_000;

/// Largest supported number of agents in one store.
pub const MAX_AGENTS: usize = 1024;

/// Why a configuration was rejected.
#[derive(Clone, Copy, PartialEq, Eq, Structural, Debug)]
pub enum ConfigError {
    /// A world half-extent is zero or negative.
    NonPositiveExtent,
    /// The vision or collision radius is zero or negative.
    NonPositiveRadius,
    /// The collision radius is larger than the vision radius.
    CollisionExceedsVision,
    /// A weight, radius, extent or speed lies outside the supported
    /// fixed-point range.
    ParameterOutOfRange,
}

/// Parameters of the flocking simulation. Distances and speeds are plain
/// integer units; weights are thousandths (a weight of `300` scales a
/// steering direction by `0.3`).
#[derive(Clone, Copy, PartialEq, Eq, Structural, Debug)]
pub struct SimConfig {
    /// Half the world width: the world spans `[-half_width, half_width]`.
    pub half_width: i64,
    /// Half the world height: the world spans `[-half_height, half_height]`.
    pub half_height: i64,
    /// Agents closer than this distance count as flockmates.
    pub vision_radius: i64,
    /// Agents closer than this distance additionally repel each other.
    pub collision_radius: i64,
    /// Weight of the alignment steering contribution, in thousandths.
    pub alignment_weight: i64,
    /// Weight of the cohesion steering contribution, in thousandths.
    pub cohesion_weight: i64,
    /// Weight of each separation steering contribution, in thousandths.
    pub separation_weight: i64,
    /// Speed that newly created agents move at.
    pub initial_speed: i64,
}

impl SimConfig {
    /// A configuration the simulation accepts: positive extents and radii
    /// within range, collision radius at most the vision radius, weights in
    /// `[0, MILLI]`, and a positive initial speed within range.
    pub open spec fn valid(self) -> bool {
        &&& 0 < self.half_width <= MAX_EXTENT
        &&& 0 < self.half_height <= MAX_EXTENT
        &&& 0 < self.collision_radius
        &&& self.collision_radius <= self.vision_radius
        &&& self.vision_radius <= MAX_EXTENT
        &&& 0 <= self.alignment_weight <= MILLI
        &&& 0 <= self.cohesion_weight <= MILLI
        &&& 0 <= self.separation_weight <= MILLI
        &&& 0 < self.initial_speed <= MAX_SPEED
    }

    /// Checks the configuration, reporting the first violated rule:
    /// non-positive extents, then non-positive radii, then a collision radius
    /// above the vision radius, then any remaining out-of-range parameter.
    pub fn validate(&self) -> (r: Result<(), ConfigError>)
        ensures
            r is Ok <==> self.valid(),
            r == Result::<(), ConfigError>::Err(ConfigError::NonPositiveExtent) <==> (self.half_width
                <= 0 || self.half_height <= 0),
            r == Result::<(), ConfigError>::Err(ConfigError::NonPositiveRadius) <==> (self.half_width
                > 0 && self.half_height > 0 && (self.vision_radius <= 0 || self.collision_radius
                <= 0)),
            r == Result::<(), ConfigError>::Err(ConfigError::CollisionExceedsVision) <==> (
            self.half_width > 0 && self.half_height > 0 && self.vision_radius > 0
                && self.collision_radius > 0 && self.collision_radius > self.vision_radius),
    {
        if self.half_width <= 0 || self.half_height <= 0 {
            return Err(ConfigError::NonPositiveExtent);
        }
        if self.vision_radius <= 0 || self.collision_radius <= 0 {
            return Err(ConfigError::NonPositiveRadius);
        }
        if self.collision_radius > self.vision_radius {
            return Err(ConfigError::CollisionExceedsVision);
        }
        if self.half_width > MAX_EXTENT || self.half_height > MAX_EXTENT || self.vision_radius
            > MAX_EXTENT || self.alignment_weight < 0 || self.alignment_weight > MILLI
            || self.cohesion_weight < 0 || self.cohesion_weight > MILLI || self.separation_weight
            < 0 || self.separation_weight > MILLI || self.initial_speed <= 0 || self.initial_speed
            > MAX_SPEED {
            return Err(ConfigError::ParameterOutOfRange);
        }
        Ok(())
    }

    /// The parameter set the simulation is tuned for: vision radius 80,
    /// collision radius 30, alignment and cohesion weight 0.2, separation
    /// weight 0.3, speed 150, over a caller-chosen world rectangle.
    pub fn recommended(half_width: i64, half_height: i64) -> (c: SimConfig)
        ensures
            c.half_width == half_width,
            c.half_height == half_height,
            c.vision_radius == 80,
            c.collision_radius == 30,
            c.alignment_weight == 200,
            c.cohesion_weight == 200,
            c.separation_weight == 300,
            c.initial_speed == 150,
            (0 < half_width <= MAX_EXTENT && 0 < half_height <= MAX_EXTENT) ==> c.valid(),
    {
        SimConfig {
            half_width,
            half_height,
            vision_radius: 80,
            collision_radius: 30,
            alignment_weight: 200,
            cohesion_weight: 200,
            separation_weight: 300,
            initial_speed: 150,
        }
    }
}

} // verus!
