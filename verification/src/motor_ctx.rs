use vstd::prelude::*;
use crate::controller::Controller;

verus! {

/// Canonical motor state/command triple: current, velocity, position.
///
/// Scalar samples are carried through the core as the 64-bit patterns of the
/// process-boundary floating-point values.  The core never does arithmetic on
/// them; it only routes them, and the all-zero pattern is the idle value.
#[derive(Clone, Copy, PartialEq, Eq, Structural, Debug)]
pub struct CVP {
    pub current: u64,
    pub position: u64,
    pub velocity: u64,
}

impl CVP {
    /// The idle triple: every field zero.
    pub open spec fn spec_zero() -> CVP {
        CVP { current: 0, position: 0, velocity: 0 }
    }

    /// Builds the idle triple.
    pub fn zero() -> (r: CVP)
        ensures
            r == CVP::spec_zero(),
    {
        CVP { current: 0, position: 0, velocity: 0 }
    }
}

impl Default for CVP {
    fn default() -> (r: CVP)
        ensures
            r == CVP::spec_zero(),
    {
        CVP::zero()
    }
}

/// Which quantity a session commands; the flags only say what a front end
/// displays alongside it.  Exactly one variant is active per session.
#[derive(PartialEq, Eq, Structural, Clone, Copy, Debug)]
pub enum ControlState {
    Position { show_velocity: bool, show_torque: bool },
    Velocity { show_position: bool, show_torque: bool },
    Torque { show_position: bool, show_velocity: bool },
}

/// Per-session configuration.  `gear_reduction` is the scale factor between
/// user units and wire units, carried as an opaque 64-bit scalar pattern.
#[derive(Debug)]
pub struct MotorConfig {
    pub gear_reduction: u64,
    pub controller: Option<Controller>,
    pub state: ControlState,
}

} // verus!
