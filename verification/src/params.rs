//! Physical parameters shared by every member of an ensemble.

use vstd::prelude::*;
use crate::binary64::{is_positive_real, positive_real};

verus! {

/// Names one of the six physical parameters.
#[derive(Clone, Copy, Debug, PartialEq, Eq, Structural)]
pub enum Parameter {
    Arm1Length,
    Arm2Length,
    Mass1,
    Mass2,
    Gravity,
    TimeStep,
}

impl Parameter {
    /// Position of the parameter in the order in which they are examined.
    pub open spec fn position(self) -> nat {
        match self {
            Parameter::Arm1Length => 0,
            Parameter::Arm2Length => 1,
            Parameter::Mass1 => 2,
            Parameter::Mass2 => 3,
            Parameter::Gravity => 4,
            Parameter::TimeStep => 5,
        }
    }
}

/// Arm lengths, masses, gravity and the fixed time step of a run, each stored
/// as the bit pattern of a double. A usable set has every value a positive
/// real number.
#[derive(Clone, Copy, Debug, PartialEq, Eq, Structural)]
pub struct SimulationParameters {
    pub arm1_length: u64,
    pub arm2_length: u64,
    pub mass1: u64,
    pub mass2: u64,
    pub gravity: u64,
    pub time_step: u64,
}

impl SimulationParameters {
    /// The stored pattern of the named parameter.
    pub open spec fn value_of(self, which: Parameter) -> u64 {
        match which {
            Parameter::Arm1Length => self.arm1_length,
            Parameter::Arm2Length => self.arm2_length,
            Parameter::Mass1 => self.mass1,
            Parameter::Mass2 => self.mass2,
            Parameter::Gravity => self.gravity,
            Parameter::TimeStep => self.time_step,
        }
    }

    /// Every parameter is a positive real number.
    pub open spec fn valid(self) -> bool {
        forall|which: Parameter| positive_real(#[trigger] self.value_of(which))
    }

    /// `which` is the first parameter, in examination order, that is not a
    /// positive real number.
    pub open spec fn first_offender(self, which: Parameter) -> bool {
        &&& !positive_real(self.value_of(which))
        &&& forall|earlier: Parameter|
            (#[trigger] earlier.position()) < which.position() ==> positive_real(
                self.value_of(earlier),
            )
    }

    /// The first parameter that is not a positive real number, if there is one.
    pub fn first_invalid(&self) -> (r: Option<Parameter>)
        ensures
            r is None <==> self.valid(),
            r matches Some(which) ==> self.first_offender(which),
    {
        assert(self.value_of(Parameter::Arm1Length) == self.arm1_length);
        assert(self.value_of(Parameter::Arm2Length) == self.arm2_length);
        assert(self.value_of(Parameter::Mass1) == self.mass1);
        assert(self.value_of(Parameter::Mass2) == self.mass2);
        assert(self.value_of(Parameter::Gravity) == self.gravity);
        assert(self.value_of(Parameter::TimeStep) == self.time_step);
        if !is_positive_real(self.arm1_length) {
            Some(Parameter::Arm1Length)
        } else if !is_positive_real(self.arm2_length) {
            Some(Parameter::Arm2Length)
        } else if !is_positive_real(self.mass1) {
            Some(Parameter::Mass1)
        } else if !is_positive_real(self.mass2) {
            Some(Parameter::Mass2)
        } else if !is_positive_real(self.gravity) {
            Some(Parameter::Gravity)
        } else if !is_positive_real(self.time_step) {
            Some(Parameter::TimeStep)
        } else {
            None
        }
    }
}

/// At most one parameter is the first offender, so the outcome of the
/// examination is determined by the parameter values alone.
pub proof fn lemma_first_offender_unique(params: SimulationParameters, a: Parameter, b: Parameter)
    requires
        params.first_offender(a),
        params.first_offender(b),
    ensures
        a == b,
{
    if a.position() < b.position() {
        assert(positive_real(params.value_of(a)));
    } else if b.position() < a.position() {
        assert(positive_real(params.value_of(b)));
    }
}

} // verus!
