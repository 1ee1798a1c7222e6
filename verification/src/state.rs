//! The state of one double pendulum.

use vstd::prelude::*;
use crate::binary64::{finite, is_finite};

verus! {

/// Angular positions and velocities of the two arms, each stored as the bit
/// pattern of a double.
///
/// Angles are in radians and are never wrapped; velocities are in radians per
/// unit time. The same four-component shape also carries a time-derivative:
/// then the first two components are rates of the angles and the last two are
/// rates of the velocities.
#[derive(Clone, Copy, Debug, PartialEq, Eq, Structural)]
pub struct PendulumState {
    pub theta1: u64,
    pub theta2: u64,
    pub omega1: u64,
    pub omega2: u64,
}

impl PendulumState {
    /// All four components are finite.
    pub open spec fn finite(self) -> bool {
        &&& finite(self.theta1)
        &&& finite(self.theta2)
        &&& finite(self.omega1)
        &&& finite(self.omega2)
    }

    /// Whether all four components are finite. The engine never repairs a
    /// state that is not; a caller that cares checks after a tick.
    pub fn is_finite(&self) -> (r: bool)
        ensures
            r == self.finite(),
    {
        is_finite(self.theta1) && is_finite(self.theta2) && is_finite(self.omega1) && is_finite(
            self.omega2,
        )
    }
}

} // verus!
