//! The path-termination policy of the radiance estimator.
//!
//! A path starts with a bounce budget. At each step the scene is probed along
//! the current ray: a hit spends one bounce and continues along the scattered
//! ray, a miss ends the path on the background gradient, and an empty budget
//! ends it in black. The colour of a path is the product of the albedos met
//! along it times the colour it ends on.

use vstd::prelude::*;

verus! {

/// What the estimator does next.
#[derive(Clone, Copy, Debug, PartialEq, Eq, Structural)]
pub enum Step {
    /// The budget is spent: the path contributes black.
    Black,
    /// Nothing was hit: the path ends on the background gradient.
    Background,
    /// A surface was hit: multiply by its albedo and continue along the
    /// scattered ray with `depth` bounces left.
    Bounce { depth: u32 },
}

/// The step taken with `depth` bounces left, when the probe of the scene
/// found a surface (`hit`) or not.
pub open spec fn step_of(depth: u32, hit: bool) -> Step {
    if depth == 0 {
        Step::Black
    } else if hit {
        Step::Bounce { depth: (depth - 1) as u32 }
    } else {
        Step::Background
    }
}

/// Decides the next step of a path. With no budget left the answer does not
/// depend on `hit`, so a caller need not probe the scene there.
pub fn next_step(depth: u32, hit: bool) -> (s: Step)
    ensures
        s == step_of(depth, hit),
{
    if depth == 0 {
        Step::Black
    } else if hit {
        Step::Bounce { depth: depth - 1 }
    } else {
        Step::Background
    }
}

/// Runs the policy over the outcomes of successive probes: the step that
/// ends the path (`None` when the probes run out first) and the number of
/// bounces taken before it.
pub open spec fn run(depth: u32, probes: Seq<bool>) -> (Option<Step>, nat)
    decreases probes.len(),
{
    if probes.len() == 0 {
        (None, 0)
    } else {
        match step_of(depth, probes[0]) {
            Step::Bounce { depth: d } => {
                let rest = run(d, probes.drop_first());
                (rest.0, rest.1 + 1)
            },
            s => (Some(s), 0),
        }
    }
}

/// With no budget left a path ends in black, whatever the scene holds.
pub proof fn lemma_exhausted_budget_is_black(hit: bool)
    ensures
        step_of(0, hit) == Step::Black,
{
}

/// A probe that finds nothing ends a path with budget left on the background.
pub proof fn lemma_miss_is_background(depth: u32)
    requires
        depth > 0,
    ensures
        step_of(depth, false) == Step::Background,
{
}

/// A path ends within its budget: whatever the probes report, it takes at
/// most `depth` bounces and has ended once `depth + 1` probes are made.
pub proof fn lemma_path_ends_within_budget(depth: u32, probes: Seq<bool>)
    requires
        probes.len() > depth,
    ensures
        run(depth, probes).0 is Some,
        run(depth, probes).1 <= depth,
    decreases probes.len(),
{
    if depth > 0 && probes[0] {
        lemma_path_ends_within_budget((depth - 1) as u32, probes.drop_first());
    }
}

} // verus!
