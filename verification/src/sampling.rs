//! Rejection sampling with an end: points of the unit ball and of the unit
//! disk are drawn from the cube or square around them until one falls inside.

use vstd::prelude::*;
use crate::scalar::Scalar;

verus! {

/// How many candidates are drawn at most. A candidate for the ball is
/// rejected with a chance below one half, one for the disk with a chance
/// below a quarter, so that a fair source comes this far less than once in
/// 10^30 draws.
pub const MAX_TRIALS: u32 = 100;

/// What to do with a candidate point.
#[derive(Clone, Copy, Debug, PartialEq, Eq, Structural)]
pub enum Trial {
    /// The point lies inside: take it.
    Accept,
    /// The point lies outside: draw another.
    Retry,
    /// The point lies outside and the trials are used up: take the centre,
    /// which lies inside.
    GiveUp,
}

impl Trial {
    /// The verdict on the candidate with number `trial`, counted from 0.
    pub open spec fn judge_spec(trial: u32, length_squared: Scalar) -> Trial {
        if length_squared.spec_lt(Scalar::one()) {
            Trial::Accept
        } else if trial + 1 < MAX_TRIALS {
            Trial::Retry
        } else {
            Trial::GiveUp
        }
    }

    /// The verdict on the candidate with number `trial`, counted from 0,
    /// whose squared distance from the centre is `length_squared`.
    ///
    /// A point is inside where that is below 1. Another is asked for only
    /// while fewer than `MAX_TRIALS` were drawn, so a loop that draws
    /// candidates `0, 1, 2, ..` and stops at the first verdict that is not
    /// `Retry` draws at most `MAX_TRIALS`.
    pub fn judge(trial: u32, length_squared: Scalar) -> (verdict: Trial)
        ensures
            verdict == Trial::judge_spec(trial, length_squared),
            verdict is Accept <==> length_squared.spec_lt(Scalar::one()),
            verdict is Retry ==> trial + 1 < MAX_TRIALS,
    {
        if length_squared.lt(Scalar::one()) {
            Trial::Accept
        } else if trial < MAX_TRIALS - 1 {
            Trial::Retry
        } else {
            Trial::GiveUp
        }
    }
}

} // verus!
