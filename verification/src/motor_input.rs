use vstd::prelude::*;

verus! {

/// One second, in the nanosecond ticks this crate carries time in.
pub const SECOND_NS: u64 = 1_000_000_000;

/// The 64-bit pattern of the scalar one, the default waveform magnitude.
pub const SCALAR_ONE_BITS: u64 = 0x3FF0_0000_0000_0000;

/// A step request: hold zero for `delay_ns`, then hold `magnitude` on the
/// velocity channel for `on_dur_ns`, then end.
#[derive(Clone, Copy, PartialEq, Eq, Structural, Debug)]
pub struct StepInput {
    pub delay_ns: u64,
    pub magnitude: u64,
    pub on_dur_ns: u64,
}

/// An impulse request: `magnitude` on the velocity channel only inside a
/// small window around `delay_ns`, zero otherwise; ends past twice the delay.
#[derive(Clone, Copy, PartialEq, Eq, Structural, Debug)]
pub struct ImpulseInput {
    pub magnitude: u64,
    pub delay_ns: u64,
}

impl Default for StepInput {
    fn default() -> (r: StepInput)
        ensures
            r == (StepInput { delay_ns: SECOND_NS, magnitude: SCALAR_ONE_BITS, on_dur_ns: SECOND_NS }),
    {
        StepInput { delay_ns: SECOND_NS, magnitude: SCALAR_ONE_BITS, on_dur_ns: SECOND_NS }
    }
}

impl Default for ImpulseInput {
    fn default() -> (r: ImpulseInput)
        ensures
            r == (ImpulseInput { magnitude: SCALAR_ONE_BITS, delay_ns: SECOND_NS }),
    {
        ImpulseInput { magnitude: SCALAR_ONE_BITS, delay_ns: SECOND_NS }
    }
}

/// A declarative motion request, as a collaborator hands it to a reactor.
/// `Custom` carries (magnitude, duration) segments played in order.
#[derive(Clone, PartialEq, Eq, Debug)]
pub enum MotorInput {
    Idle,
    Constant(u64),
    Step(StepInput),
    Impulse(ImpulseInput),
    Custom(Vec<(u64, u64)>),
}

} // verus!
