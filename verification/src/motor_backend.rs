use vstd::prelude::*;
use crate::motor_ctx::{MotorConfig, CVP};
use crate::motor_input::{ImpulseInput, MotorInput, StepInput};

verus! {

/// Half-width of the impulse detection window: 10 ms of nanosecond ticks.
pub const IMPULSE_EPSILON_NS: u64 = 10_000_000;

/// A motion request as a session stores it, paired at request time with a
/// start timestamp.  `Custom` carries (target, duration) segments.
#[derive(Clone, PartialEq, Eq, Debug)]
pub enum RequestedMotorInput {
    Cvp(CVP),
    Step(StepInput),
    Impulse(ImpulseInput),
    Custom(Vec<(CVP, u64)>),
}

/// A triple that commands `magnitude` on the velocity channel and zero on the
/// others.
pub open spec fn spec_velocity_cvp(magnitude: u64) -> CVP {
    CVP { current: 0, position: 0, velocity: magnitude }
}

/// Target of a step request after `elapsed` nanoseconds: zero before the
/// delay, the magnitude from the delay through the end of the on-window,
/// nothing afterwards.
pub open spec fn spec_step_target(s: StepInput, elapsed: int) -> Option<CVP> {
    if elapsed > s.delay_ns + s.on_dur_ns {
        None
    } else if elapsed >= s.delay_ns {
        Some(spec_velocity_cvp(s.magnitude))
    } else {
        Some(CVP::spec_zero())
    }
}

/// Target of an impulse request after `elapsed` nanoseconds: the magnitude
/// only while `elapsed` is strictly within the epsilon window around the
/// delay, zero otherwise, nothing once `elapsed` passes twice the delay.
pub open spec fn spec_impulse_target(i: ImpulseInput, elapsed: int) -> Option<CVP> {
    if elapsed > 2 * i.delay_ns {
        None
    } else if i.delay_ns - IMPULSE_EPSILON_NS < elapsed < i.delay_ns + IMPULSE_EPSILON_NS {
        Some(spec_velocity_cvp(i.magnitude))
    } else {
        Some(CVP::spec_zero())
    }
}

/// Target of a custom request: the target of the first segment whose
/// cumulative duration exceeds `elapsed`, visiting segments in order; nothing
/// once `elapsed` passes the total duration.
pub open spec fn spec_custom_target(segs: Seq<(CVP, u64)>, elapsed: int) -> Option<CVP>
    decreases segs.len(),
{
    if segs.len() == 0 {
        None
    } else if elapsed < segs[0].1 {
        Some(segs[0].0)
    } else {
        spec_custom_target(segs.skip(1), elapsed - segs[0].1)
    }
}

/// Target of any request after `elapsed` nanoseconds; `None` means the
/// waveform has completed.
pub open spec fn spec_next_target(req: RequestedMotorInput, elapsed: int) -> Option<CVP> {
    match req {
        RequestedMotorInput::Cvp(c) => Some(c),
        RequestedMotorInput::Step(s) => spec_step_target(s, elapsed),
        RequestedMotorInput::Impulse(i) => spec_impulse_target(i, elapsed),
        RequestedMotorInput::Custom(segs) => spec_custom_target(segs@, elapsed),
    }
}

/// Computes the custom-request target by walking the segments in order and
/// accumulating durations in 128 bits, so no sum can overflow.
fn custom_target(segs: &Vec<(CVP, u64)>, elapsed_ns: u64) -> (r: Option<CVP>)
    ensures
        r == spec_custom_target(segs@, elapsed_ns as int),
{
    let mut acc: u128 = 0;
    let mut i: usize = 0;
    proof {
        assert(segs@.skip(0) =~= segs@);
    }
    while i < segs.len()
        invariant
            i <= segs@.len(),
            acc <= i * 0x1_0000_0000_0000_0000u128,
            spec_custom_target(segs@, elapsed_ns as int)
                == spec_custom_target(segs@.skip(i as int), elapsed_ns - acc),
        decreases segs@.len() - i,
    {
        proof {
            assert(segs@.skip(i as int)[0] == segs@[i as int]);
        }
        let next_acc: u128 = acc + segs[i].1 as u128;
        if (elapsed_ns as u128) < next_acc {
            proof {
                assert(spec_custom_target(segs@.skip(i as int), elapsed_ns - acc)
                    == Some(segs@[i as int].0));
            }
            return Some(segs[i].0);
        }
        proof {
            assert(segs@.skip(i as int).skip(1) =~= segs@.skip(i as int + 1));
            assert(spec_custom_target(segs@.skip(i as int), elapsed_ns - acc)
                == spec_custom_target(segs@.skip(i as int + 1), elapsed_ns - next_acc));
        }
        acc = next_acc;
        i = i + 1;
    }
    proof {
        assert(segs@.skip(i as int).len() == 0);
    }
    None
}

/// Computes the target of `req` after `elapsed_ns` nanoseconds.
pub fn next_target(req: &RequestedMotorInput, elapsed_ns: u64) -> (r: Option<CVP>)
    ensures
        r == spec_next_target(*req, elapsed_ns as int),
{
    match req {
        RequestedMotorInput::Cvp(c) => Some(*c),
        RequestedMotorInput::Step(s) => {
            if (elapsed_ns as u128) > s.delay_ns as u128 + s.on_dur_ns as u128 {
                None
            } else if elapsed_ns >= s.delay_ns {
                Some(CVP { current: 0, position: 0, velocity: s.magnitude })
            } else {
                Some(CVP::zero())
            }
        }
        RequestedMotorInput::Impulse(i) => {
            if (elapsed_ns as u128) > 2 * (i.delay_ns as u128) {
                None
            } else if (elapsed_ns as u128) + (IMPULSE_EPSILON_NS as u128) > i.delay_ns as u128
                && (elapsed_ns as u128) < i.delay_ns as u128 + IMPULSE_EPSILON_NS as u128
            {
                Some(CVP { current: 0, position: 0, velocity: i.magnitude })
            } else {
                Some(CVP::zero())
            }
        }
        RequestedMotorInput::Custom(segs) => custom_target(segs, elapsed_ns),
    }
}

/// Per-connection session state: configuration, the last computed input, the
/// active motion request with its start timestamp, and protocol-specific
/// state `T`.
pub struct Backend<T> {
    pub motor_config: MotorConfig,
    pub input_cvp: Option<CVP>,
    pub request_input: Option<(u64, RequestedMotorInput)>,
    pub backend_specific: T,
}

/// Elapsed ticks from `start_ns` to `now_ns`, clamped at zero as the
/// monotonic clock's difference is.
pub open spec fn spec_elapsed(start_ns: u64, now_ns: u64) -> int {
    if now_ns >= start_ns {
        now_ns - start_ns
    } else {
        0
    }
}

/// The session as `update_input` leaves it at `now_ns`: the input triple is
/// recomputed from the active request, and a completed request is dropped.
pub open spec fn spec_updated_input<T>(b: Backend<T>, now_ns: u64) -> Backend<T> {
    match b.request_input {
        None => Backend { input_cvp: None, ..b },
        Some((start_ns, req)) => {
            let target = spec_next_target(req, spec_elapsed(start_ns, now_ns));
            Backend {
                input_cvp: target,
                request_input: if target is None { None } else { b.request_input },
                ..b
            }
        },
    }
}

/// True exactly when `update_input` at `now_ns` finds the active request has
/// completed, which is the one moment the completion is reported.
pub open spec fn spec_update_ends<T>(b: Backend<T>, now_ns: u64) -> bool {
    match b.request_input {
        None => false,
        Some((start_ns, req)) => spec_next_target(req, spec_elapsed(start_ns, now_ns)) is None,
    }
}

/// The segment list a custom request stores: each magnitude moved onto the
/// velocity channel, durations kept.
pub open spec fn spec_custom_segs(c: Seq<(u64, u64)>) -> Seq<(CVP, u64)> {
    c.map(|k: int, p: (u64, u64)| (spec_velocity_cvp(p.0), p.1))
}

/// Relates a session before and after `set_waveform(w, now_ns)`: the request
/// is stored with its start timestamp and the input triple is set to the
/// request's value at the start.
pub open spec fn spec_waveform_set<T>(
    b: Backend<T>,
    after: Backend<T>,
    w: MotorInput,
    now_ns: u64,
) -> bool {
    &&& after.motor_config == b.motor_config
    &&& after.backend_specific == b.backend_specific
    &&& match w {
        MotorInput::Idle => {
            &&& after.input_cvp == Some(CVP::spec_zero())
            &&& after.request_input == Some((now_ns, RequestedMotorInput::Cvp(CVP::spec_zero())))
        },
        MotorInput::Constant(c) => {
            &&& after.input_cvp == Some(spec_velocity_cvp(c))
            &&& after.request_input == Some((now_ns, RequestedMotorInput::Cvp(spec_velocity_cvp(c))))
        },
        MotorInput::Step(s) => {
            &&& after.input_cvp == Some(
                if s.delay_ns == 0 {
                    spec_velocity_cvp(s.magnitude)
                } else {
                    CVP::spec_zero()
                },
            )
            &&& after.request_input == Some((now_ns, RequestedMotorInput::Step(s)))
        },
        MotorInput::Impulse(i) => {
            &&& after.input_cvp == Some(CVP::spec_zero())
            &&& after.request_input == Some((now_ns, RequestedMotorInput::Impulse(i)))
        },
        MotorInput::Custom(c) => {
            &&& after.input_cvp == Some(
                if c@.len() > 0 {
                    spec_velocity_cvp(c@[0].0)
                } else {
                    CVP::spec_zero()
                },
            )
            &&& match after.request_input {
                Some((t, RequestedMotorInput::Custom(segs))) => {
                    &&& t == now_ns
                    &&& segs@ == spec_custom_segs(c@)
                },
                _ => false,
            }
        },
    }
}

/// A waveform's completion is reported exactly once: once `update_input`
/// finds the request complete and drops it, no later update finds one.
pub proof fn lemma_end_reported_once<T>(b: Backend<T>, t1: u64, t2: u64)
    ensures
        spec_update_ends(b, t1) ==> !spec_update_ends(spec_updated_input(b, t1), t2),
{
}

impl<T> Backend<T> {
    /// Builds a session around protocol-specific state, with no input
    /// computed yet.
    pub fn new(
        motor_config: MotorConfig,
        backend_specific: T,
        request_input: Option<RequestedMotorInput>,
        now_ns: u64,
    ) -> (r: Backend<T>)
        ensures
            r.motor_config == motor_config,
            r.backend_specific == backend_specific,
            r.input_cvp is None,
            match request_input {
                Some(req) => r.request_input == Some((now_ns, req)),
                None => r.request_input is None,
            },
    {
        Backend {
            motor_config,
            input_cvp: None,
            request_input: match request_input {
                Some(req) => Some((now_ns, req)),
                None => None,
            },
            backend_specific,
        }
    }

    /// Recomputes `input_cvp` from the active request at `now_ns`.  Returns
    /// true exactly when the waveform has just completed; the request is
    /// dropped then, so the completion is reported exactly once.
    pub fn update_input(&mut self, now_ns: u64) -> (end: bool)
        ensures
            *final(self) == spec_updated_input(*old(self), now_ns),
            end == spec_update_ends(*old(self), now_ns),
    {
        match &self.request_input {
            None => {
                self.input_cvp = None;
                false
            }
            Some((start_ns, req)) => {
                let elapsed_ns: u64 = if now_ns >= *start_ns {
                    now_ns - *start_ns
                } else {
                    0
                };
                let target = next_target(req, elapsed_ns);
                let end = target.is_none();
                self.input_cvp = target;
                if end {
                    self.request_input = None;
                }
                end
            }
        }
    }

    /// Installs a motion request at `now_ns` and computes its starting input
    /// triple, as a `SetWaveForm` command does.
    pub fn set_waveform(&mut self, waveform: MotorInput, now_ns: u64)
        ensures
            spec_waveform_set(*old(self), *final(self), waveform, now_ns),
    {
        match waveform {
            MotorInput::Idle => {
                let cvp = CVP::zero();
                self.input_cvp = Some(cvp);
                self.request_input = Some((now_ns, RequestedMotorInput::Cvp(cvp)));
            }
            MotorInput::Constant(c) => {
                let cvp = CVP { current: 0, position: 0, velocity: c };
                self.input_cvp = Some(cvp);
                self.request_input = Some((now_ns, RequestedMotorInput::Cvp(cvp)));
            }
            MotorInput::Step(s) => {
                let cvp = if s.delay_ns == 0 {
                    CVP { current: 0, position: 0, velocity: s.magnitude }
                } else {
                    CVP::zero()
                };
                self.input_cvp = Some(cvp);
                self.request_input = Some((now_ns, RequestedMotorInput::Step(s)));
            }
            MotorInput::Impulse(i) => {
                self.input_cvp = Some(CVP::zero());
                self.request_input = Some((now_ns, RequestedMotorInput::Impulse(i)));
            }
            MotorInput::Custom(c) => {
                let mut segs: Vec<(CVP, u64)> = Vec::new();
                let mut k: usize = 0;
                while k < c.len()
                    invariant
                        k <= c@.len(),
                        segs@.len() == k,
                        forall|j: int|
                            0 <= j < k ==> segs@[j] == (spec_velocity_cvp(c@[j].0), c@[j].1),
                    decreases c@.len() - k,
                {
                    let (mag, dur) = c[k];
                    segs.push((CVP { current: 0, position: 0, velocity: mag }, dur));
                    k = k + 1;
                }
                proof {
                    assert(segs@ =~= spec_custom_segs(c@));
                }
                let first = if segs.len() > 0 {
                    segs[0].0
                } else {
                    CVP::zero()
                };
                self.input_cvp = Some(first);
                self.request_input = Some((now_ns, RequestedMotorInput::Custom(segs)));
            }
        }
    }

    /// Cancels the active request and idles the input triple, as a
    /// `StopWaveform` command does.
    pub fn stop_waveform(&mut self)
        ensures
            final(self).motor_config == old(self).motor_config,
            final(self).backend_specific == old(self).backend_specific,
            final(self).input_cvp == Some(CVP::spec_zero()),
            final(self).request_input is None,
    {
        self.input_cvp = Some(CVP::zero());
        self.request_input = None;
    }
}

} // verus!
