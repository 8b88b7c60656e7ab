//! How many points each kind of sample path takes, and from where.
use vstd::prelude::*;

verus! {

/// How a fractional Gaussian noise path of a given length is drawn.
#[derive(PartialEq, Eq, Structural, Clone, Copy, Debug)]
pub enum NoisePlan {
    /// No point is requested: the path is empty.
    Empty,
    /// One point: a single draw from the marginal Gaussian, whose standard
    /// deviation is the square root of the process's variance; the embedding
    /// is not used.
    Direct,
    /// `n + 1` points, `n >= 1`: the real parts of the first `n + 1` entries
    /// of a circulant embedding of order `2n`, each scaled by `(1 / n)^H`.
    Embedding { n: usize },
}

/// The plan that a path of `count` points follows.
pub open spec fn spec_noise_plan(count: nat) -> NoisePlan {
    if count == 0 {
        NoisePlan::Empty
    } else if count == 1 {
        NoisePlan::Direct
    } else {
        NoisePlan::Embedding { n: (count - 1) as usize }
    }
}

/// Chooses how to draw a fractional Gaussian noise path of `count` points.
pub fn noise_plan(count: usize) -> (p: NoisePlan)
    ensures
        p == spec_noise_plan(count as nat),
        count == 0 <==> p == NoisePlan::Empty,
        count == 1 <==> p == NoisePlan::Direct,
        count >= 2 <==> p == (NoisePlan::Embedding { n: (count - 1) as usize }),
{
    if count == 0 {
        NoisePlan::Empty
    } else if count == 1 {
        NoisePlan::Direct
    } else {
        NoisePlan::Embedding { n: count - 1 }
    }
}

/// How a fractional Brownian motion path of a given length is built.
#[derive(PartialEq, Eq, Structural, Clone, Copy, Debug)]
pub enum MotionPlan {
    /// No point is requested: the path is empty.
    Empty,
    /// One point: the origin, exactly `0`.
    Origin,
    /// `increments + 1` points, `increments >= 1`: the origin followed by the
    /// running sums of a fractional Gaussian noise path of `increments` points.
    Increments { increments: usize },
}

/// The plan that a motion path of `points` points follows.
pub open spec fn spec_motion_plan(points: nat) -> MotionPlan {
    if points == 0 {
        MotionPlan::Empty
    } else if points == 1 {
        MotionPlan::Origin
    } else {
        MotionPlan::Increments { increments: (points - 1) as usize }
    }
}

/// Chooses how to build a fractional Brownian motion path of `points` points.
pub fn motion_plan(points: usize) -> (p: MotionPlan)
    ensures
        p == spec_motion_plan(points as nat),
        points == 0 <==> p == MotionPlan::Empty,
        points == 1 <==> p == MotionPlan::Origin,
        points >= 2 <==> p == (MotionPlan::Increments { increments: (points - 1) as usize }),
{
    if points == 0 {
        MotionPlan::Empty
    } else if points == 1 {
        MotionPlan::Origin
    } else {
        MotionPlan::Increments { increments: points - 1 }
    }
}

} // verus!
