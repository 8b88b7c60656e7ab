//! Stochastic processes: the index and layout logic behind exact sampling of
//! fractional Gaussian noise and fractional Brownian motion by circulant
//! embedding.
use vstd::prelude::*;

pub mod embedding;
pub mod path;
pub mod plan;

verus! {

/// A distance between two indices of a stationary process.
pub trait Distance: Sized {
    /// The value that this distance type takes as "no distance at all".
    spec fn spec_zero() -> Self;

    /// The zero distance.
    fn zero() -> (r: Self)
        ensures
            r == Self::spec_zero(),
    ;
}

impl Distance for usize {
    open spec fn spec_zero() -> usize {
        0
    }

    fn zero() -> (r: usize) {
        0
    }
}

/// The distance `|t - s|` between two indices.
pub open spec fn spec_lag(t: int, s: int) -> int {
    if t < s {
        s - t
    } else {
        t - s
    }
}

/// The lag between indices `t` and `s` of a discrete-time stationary process:
/// the covariance of the values at `t` and `s` is the stationary covariance
/// at this lag.
pub fn lag(t: usize, s: usize) -> (r: usize)
    ensures
        r == spec_lag(t as int, s as int),
        r as int == t - s || r as int == s - t,
        t == s <==> r == 0,
{
    if t < s {
        s - t
    } else {
        t - s
    }
}

/// The covariance of a stationary process is symmetric in its two indices:
/// the lag from `t` to `s` is the lag from `s` to `t`, and the lag of an
/// index to itself is the zero distance, at which the variance is taken.
pub proof fn lemma_lag_symmetric(t: int, s: int)
    requires
        t >= 0,
        s >= 0,
    ensures
        spec_lag(t, s) == spec_lag(s, t),
        spec_lag(t, s) >= 0,
        spec_lag(t, t) == <usize as Distance>::spec_zero(),
{
}

} // verus!
