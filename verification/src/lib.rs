//! A 2D rigid-body physics core: vector and rotation math, convex bodies
//! (rectangles and boundary lines), a separating-axis collision test, an
//! impulse-based collision resolver, and a world that advances the whole
//! set of bodies through time.
//!
//! All quantities are fixed-point numbers: an `i64` counts ticks of
//! `1 / 1_048_576` of a unit (see [`fx`]). Every operation states its
//! result exactly, including truncation and saturation, so the whole
//! simulation step is specified as a mathematical function of its inputs.

pub mod angle;
pub mod collision;
pub mod fx;
pub mod line;
pub mod world;
pub mod matrix2d;
pub mod rectangle;
pub mod sat;
pub mod traits;
pub mod vec2d;
