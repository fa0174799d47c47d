//! A multi-agent steering ("boids") simulation core.
//!
//! Agents steer by four composable behaviors (separation, alignment,
//! cohesion, repulsion from static repulsor points), each clamped to a
//! maximum force, and move with a speed-clamped velocity inside a
//! toroidally wrapped world.
//!
//! All coordinates, velocities and forces are fixed-point integers in
//! milli-units: one world unit is `SCALE` (1000) milli-units. This keeps
//! every quantity exact, so each tick is a pure, fully specified function
//! of the previous state.

use vstd::prelude::*;

pub mod engine;
pub mod laws;
pub mod math;
pub mod model;
pub mod rng;
pub mod sim;
pub mod vec2;

verus! {

/// Milli-units per world unit.
pub const SCALE: i64 = 1000;

/// Speed cap for every agent, in milli-units per tick (2 world units).
pub const MAX_SPEED: i64 = 2000;

/// Cap on the magnitude of each behavior's steering force, in
/// milli-units per tick (0.03 world units).
pub const MAX_FORCE: i64 = 30;

/// Squared separation radius: agents closer than 25 world units push
/// each other apart.
pub const SEPARATION_RADIUS_SQ: i64 = 625_000_000;

/// Squared neighbor radius (50 world units) for alignment, cohesion and
/// repulsion.
pub const NEIGHBOR_RADIUS_SQ: i64 = 2_500_000_000;

/// World extents (800 x 600 world units) and the agent's drawing radius,
/// which pads the wrap region on every side.
pub const WORLD_WIDTH: i64 = 800_000;
pub const WORLD_HEIGHT: i64 = 600_000;
pub const AGENT_RADIUS: i64 = 4_000;

/// Wrap thresholds per axis, half the world extent plus the agent
/// radius: positions are wrapped once they leave
/// `[-WRAP_X, WRAP_X] x [-WRAP_Y, WRAP_Y]`.
pub const WRAP_X: i64 = 404_000;
pub const WRAP_Y: i64 = 304_000;

/// Positions handed to the simulation must fit well inside `i64`
/// arithmetic; one tick later they are wrapped into the world.
pub const COORD_LIMIT: i64 = 1_000_000_000;

/// Cap on how many agents or repulsors a store may hold; keeps every
/// neighbor sum inside `i64`.
pub const MAX_POPULATION: usize = 1_000_000_000;

/// Weights are fixed-point with this denominator: a stored weight of
/// 1500 scales a behavior by 1.5.
pub const WEIGHT_SCALE: i64 = 1000;

/// Bound on configured weights (a factor of one thousand).
pub const WEIGHT_LIMIT: i64 = 1_000_000;

/// Numerator that turns a separation offset into its inverse-distance
/// weighted contribution (`SCALE * SCALE`).
pub const INV_DIST_NUM: i64 = 1_000_000;

/// Bound on one behavior's weighted contribution per component
/// (`MAX_FORCE * WEIGHT_LIMIT / WEIGHT_SCALE`).
pub const CONTRIB_LIMIT: i64 = 30_000;

/// Bound on the combined acceleration per component
/// (`4 * CONTRIB_LIMIT`).
pub const ACCEL_LIMIT: i64 = 120_000;

/// How many agents a fresh or reset simulation starts with.
pub const INITIAL_AGENT_COUNT: usize = 150;

/// Default behavior weights: separation and repulsion 1.5, others 1.0.
pub const DEFAULT_SEPARATION_WEIGHT: i64 = 1500;
pub const DEFAULT_ALIGNMENT_WEIGHT: i64 = 1000;
pub const DEFAULT_COHESION_WEIGHT: i64 = 1000;
pub const DEFAULT_REPULSION_WEIGHT: i64 = 1500;

/// A freshly spawned agent moves at unit speed, up to fixed-point
/// rounding: its squared speed lies in
/// `[UNIT_SPEED_SQ_MIN, SCALE * SCALE]`.
pub const UNIT_SPEED_SQ_MIN: i64 = 998_000;

} // verus!
