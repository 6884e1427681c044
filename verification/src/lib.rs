//! The core of a small 2D engine: an entity-component store, a fixed-step
//! motion pass, axis-aligned collision detection and a render query.
//!
//! Entities live in a `hecs` world. What that world does is stated, not
//! proved, in [`store`]; everything else is proved against those statements.
//!
//! Every scalar is a fixed-point number: an `i64` that counts steps of
//! `1 / math::UNIT`. Positions, extents, velocities, masses, angles and scale
//! factors all use that one unit, so that sums and comparisons are exact.
//!
//! - [`math`]: scalars and vectors.
//! - [`components`]: entity identifiers, the four kinds of component, and the
//!   slot that holds what one entity carries.
//! - [`store`]: the `hecs` calls.
//! - [`query`]: which entities a query visits.
//! - [`collision`]: the overlap test and the all-pairs check.
//! - [`ecs`]: the world, the entity factory and the per-tick systems.
//! - [`laws`]: what holds of every world.
//! - [`demo_scene`]: the scene the engine starts with.
//! - [`resources`]: textures kept by name.
//! - [`input`], [`window`]: keyboard and mouse state, and what the engine
//!   does on a window event.

pub mod collision;
pub mod components;
pub mod demo_scene;
pub mod ecs;
pub mod input;
pub mod laws;
pub mod math;
pub mod query;
pub mod resources;
pub mod store;
pub mod window;
