//! Decision core of a Monte-Carlo ray tracer.
//!
//! The arithmetic on points, directions and colours happens on binary32
//! numbers outside the library. What the library decides is stated and
//! proved here: which root of a ray/sphere quadratic is taken, which of
//! several hits is nearest, whether a dielectric reflects or refracts, how a
//! path ends within its bounce budget, and how the pixel raster is laid out.
//! Scalars that must be compared come in as order keys (see `order`).

pub mod order;
pub mod shapes;
pub mod materials;
pub mod integrator;
pub mod raster;
pub mod scene;

