//! Errors reported when an ensemble cannot be constructed.

use vstd::prelude::*;
use crate::params::Parameter;

verus! {

/// Why an ensemble could not be constructed.
#[derive(Clone, Copy, Debug, PartialEq, Eq, Structural)]
pub enum EnsembleError {
    /// The requested member count was zero.
    EmptyEnsemble,
    /// The named physical parameter is not a positive real number.
    NonPositiveParameter(Parameter),
}

impl EnsembleError {
    /// The text that describes this error.
    pub open spec fn description(self) -> Seq<char> {
        match self {
            EnsembleError::EmptyEnsemble => "an ensemble needs at least one member"@,
            EnsembleError::NonPositiveParameter(Parameter::Arm1Length) =>
                "arm1_length must be a positive real number"@,
            EnsembleError::NonPositiveParameter(Parameter::Arm2Length) =>
                "arm2_length must be a positive real number"@,
            EnsembleError::NonPositiveParameter(Parameter::Mass1) =>
                "mass1 must be a positive real number"@,
            EnsembleError::NonPositiveParameter(Parameter::Mass2) =>
                "mass2 must be a positive real number"@,
            EnsembleError::NonPositiveParameter(Parameter::Gravity) =>
                "gravity must be a positive real number"@,
            EnsembleError::NonPositiveParameter(Parameter::TimeStep) =>
                "time_step must be a positive real number"@,
        }
    }

    /// A description of the error, fit for showing to whoever made the call.
    pub fn message(&self) -> (text: &'static str)
        ensures
            text@ == self.description(),
    {
        match self {
            EnsembleError::EmptyEnsemble => "an ensemble needs at least one member",
            EnsembleError::NonPositiveParameter(Parameter::Arm1Length) =>
                "arm1_length must be a positive real number",
            EnsembleError::NonPositiveParameter(Parameter::Arm2Length) =>
                "arm2_length must be a positive real number",
            EnsembleError::NonPositiveParameter(Parameter::Mass1) =>
                "mass1 must be a positive real number",
            EnsembleError::NonPositiveParameter(Parameter::Mass2) =>
                "mass2 must be a positive real number",
            EnsembleError::NonPositiveParameter(Parameter::Gravity) =>
                "gravity must be a positive real number",
            EnsembleError::NonPositiveParameter(Parameter::TimeStep) =>
                "time_step must be a positive real number",
        }
    }
}

} // verus!
