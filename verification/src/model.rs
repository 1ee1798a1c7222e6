//! The derivative model: how fast a pendulum's state changes.

use vstd::prelude::*;
use crate::params::SimulationParameters;
use crate::state::PendulumState;

verus! {

/// The instantaneous time-derivative of `state`.
///
/// The angles change at the rate of the velocities, whatever the forces are:
/// the first two components of the result are the input's `omega1` and
/// `omega2`, bit for bit. The velocities change at the rate of the angular
/// accelerations, which `accelerations` supplies as the pair
/// `(alpha1, alpha2)` for this state and these parameters; they fill the last
/// two components unchanged, so a non-finite acceleration is passed on, not
/// trapped.
pub fn derivative<A>(
    state: PendulumState,
    params: SimulationParameters,
    accelerations: &A,
) -> (rate: PendulumState) where A: Fn(PendulumState, SimulationParameters) -> (u64, u64)
    requires
        accelerations.requires((state, params)),
    ensures
        rate.theta1 == state.omega1,
        rate.theta2 == state.omega2,
        accelerations.ensures((state, params), (rate.omega1, rate.omega2)),
{
    let (alpha1, alpha2) = accelerations(state, params);
    PendulumState { theta1: state.omega1, theta2: state.omega2, omega1: alpha1, omega2: alpha2 }
}

} // verus!
