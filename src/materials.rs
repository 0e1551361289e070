//! Scattering decisions of a dielectric boundary.
//!
//! The cosine, the refracted direction and the Schlick reflectance are
//! computed on binary32 values; the library decides from their order keys
//! (see `order`) which side of the boundary a ray is on and whether it is
//! reflected or transmitted.

use vstd::prelude::*;
use crate::order::{key_of, order_key};

verus! {

/// The side from which a ray meets a dielectric boundary.
#[derive(Clone, Copy, Debug, PartialEq, Eq, Structural)]
pub enum Side {
    /// The ray enters the medium: the normal is used as it is and the index
    /// ratio is `1/η`.
    Entering,
    /// The ray leaves the medium: the normal is flipped and the ratio is `η`.
    Exiting,
}

/// The outcome of a scattering event at a dielectric boundary.
#[derive(Clone, Copy, Debug, PartialEq, Eq, Structural)]
pub enum Scatter {
    Reflect,
    Refract,
}

/// The key of `+0.0`.
pub open spec fn zero_key() -> int {
    key_of(0)
}

/// A ray leaves the medium exactly when the dot product of the surface
/// normal and its direction is greater than zero.
pub open spec fn side_of(dot: u32) -> Side {
    if dot > zero_key() {
        Side::Exiting
    } else {
        Side::Entering
    }
}

/// Reflection is chosen when refraction is impossible (total internal
/// reflection), and otherwise when the uniform draw falls below the
/// reflectance.
pub open spec fn scatter_of(refraction_possible: bool, draw: u32, reflectance: u32) -> Scatter {
    if !refraction_possible || draw < reflectance {
        Scatter::Reflect
    } else {
        Scatter::Refract
    }
}

/// The side of the boundary, from the key of `normal · direction`.
pub fn boundary_side(dot: u32) -> (s: Side)
    ensures
        s == side_of(dot),
{
    if dot > order_key(0) {
        Side::Exiting
    } else {
        Side::Entering
    }
}

/// Reflect or refract: `refraction_possible` says whether the refraction
/// discriminant is non-negative; `draw` and `reflectance` are the keys of a
/// uniform draw from `[0, 1)` and of the Schlick reflectance.
pub fn choose_scatter(refraction_possible: bool, draw: u32, reflectance: u32) -> (s: Scatter)
    ensures
        s == scatter_of(refraction_possible, draw, reflectance),
{
    if !refraction_possible {
        Scatter::Reflect
    } else if draw < reflectance {
        Scatter::Reflect
    } else {
        Scatter::Refract
    }
}

/// Under total internal reflection a dielectric reflects, whatever the draw
/// and whatever the reflectance estimate: the reflection probability is 1.
pub proof fn lemma_total_internal_reflection_reflects(draw: u32, reflectance: u32)
    ensures
        scatter_of(false, draw, reflectance) == Scatter::Reflect,
{
}

} // verus!
