use vstd::prelude::*;
use crate::motor_ctx::{ControlState, CVP};

verus! {

/// Pluggable feedback hook: given the commanded input and the latest measured
/// output, produce an adjusted input.  Only the neutral hook exists so far;
/// real control laws would be further variants.
#[derive(Clone, Copy, PartialEq, Eq, Structural, Debug)]
pub enum Controller {
    /// Leaves the commanded input unchanged.
    Passthrough,
}

impl Controller {
    /// Adjusts the next commanded input from the measured output.
    pub fn update(
        &mut self,
        input: CVP,
        output: CVP,
        control_state: &ControlState,
    ) -> (r: CVP)
        ensures
            *old(self) == Controller::Passthrough ==> r == input,
            *final(self) == *old(self),
    {
        match *self {
            Controller::Passthrough => input,
        }
    }
}

} // verus!
