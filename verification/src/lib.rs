//! A deterministic, engine-agnostic boids flocking simulation core.
//!
//! All quantities are fixed-point integers: world coordinates and velocity
//! components are plain `i64` units, steering weights are thousandths, and
//! elapsed time is thousandths of the time unit that velocity is expressed
//! over (a velocity of `v` advances a coordinate by `v` per `1000` ticks of
//! elapsed time).

use vstd::prelude::*;

pub mod agent;
pub mod config;
pub mod laws;
pub mod math;
pub mod motion;
pub mod renorm;
pub mod rng;
pub mod sim;
pub mod steering;
pub mod vec2;

verus! {

/// Fixed-point denominator: steering weights and elapsed time are expressed
/// in thousandths.
pub const MILLI: i64 = 1000;

} // verus!
