use vstd::prelude::*;
use crate::motor_backend::{spec_update_ends, spec_updated_input, Backend};
use crate::motor_ctx::MotorConfig;
use crate::motor_input::MotorInput;
use crate::wire::{
    i16_read, i32_read, i32_write, le16_read, le16_write, spec_le16, spec_le32, spec_signed16,
    spec_signed32, spec_unsigned32,
};

verus! {

/// The step count at which the bring-up counter saturates.
pub const STEP_CAP: u32 = 10000;

/// The fixed operation mode byte written in every cyclic frame.
pub const OP_MODE: u8 = 9;

/// Control words of the DS402 bring-up sequence.
pub const CONTROL_FAULT_RESET: u16 = 0x0080;

pub const CONTROL_SHUTDOWN: u16 = 0x0006;

pub const CONTROL_SWITCH_ON: u16 = 0x0007;

pub const CONTROL_ENABLE_OP: u16 = 0x000F;

/// Decoded servo-drive telemetry triple on this transport: wire units.
#[derive(Clone, Copy, PartialEq, Eq, Structural, Debug)]
pub struct CVP {
    pub position: i32,
    pub velocity: i32,
    pub torque: i16,
}

/// The inbound cyclic frame: status word, actual position, actual velocity,
/// actual torque, packed little-endian in 12 bytes.
#[derive(Clone, Copy, PartialEq, Eq, Structural, Debug)]
pub struct RecvObj {
    pub status: u16,
    pub position: i32,
    pub velocity: i32,
    pub torque: i16,
}

/// Number of bytes of an inbound cyclic frame.
pub const RECV_FRAME_LEN: usize = 12;

impl RecvObj {
    /// Decodes the fixed 12-byte inbound frame.
    pub fn unpack(b: &[u8]) -> (r: RecvObj)
        requires
            b@.len() == RECV_FRAME_LEN,
        ensures
            r.status == spec_le16(b@, 0),
            r.position == spec_signed32(spec_le32(b@, 2)),
            r.velocity == spec_signed32(spec_le32(b@, 6)),
            r.torque == spec_signed16(spec_le16(b@, 10)),
    {
        RecvObj {
            status: le16_read(b, 0),
            position: i32_read(b, 2),
            velocity: i32_read(b, 6),
            torque: i16_read(b, 10),
        }
    }

    /// The telemetry triple this frame carries.
    pub fn cvp(&self) -> (r: CVP)
        ensures
            r == (CVP { position: self.position, velocity: self.velocity, torque: self.torque }),
    {
        CVP { position: self.position, velocity: self.velocity, torque: self.torque }
    }
}

/// The outbound cyclic frame: control word, target velocity, operation mode
/// and one padding byte, packed little-endian in 8 bytes.
#[derive(Clone, Copy, PartialEq, Eq, Structural, Debug)]
pub struct WriteObj {
    pub control: u16,
    pub target_velocity: i32,
    pub opmode: u8,
    pub padding: u8,
}

/// Number of bytes of an outbound cyclic frame.
pub const WRITE_FRAME_LEN: usize = 8;

impl WriteObj {
    /// Builds an outbound frame with zero padding.
    pub fn new(control: u16, target_velocity: i32, opmode: u8) -> (r: WriteObj)
        ensures
            r == (WriteObj { control, target_velocity, opmode, padding: 0 }),
    {
        WriteObj { control, target_velocity, opmode, padding: 0 }
    }

    /// Encodes the fixed 8-byte outbound frame.
    pub fn pack(&self) -> (out: Vec<u8>)
        ensures
            out@.len() == WRITE_FRAME_LEN,
            spec_le16(out@, 0) == self.control,
            spec_le32(out@, 2) == spec_unsigned32(self.target_velocity as int),
            out@[6] == self.opmode,
            out@[7] == self.padding,
    {
        let mut out: Vec<u8> = Vec::new();
        le16_write(&mut out, self.control);
        i32_write(&mut out, self.target_velocity);
        out.push(self.opmode);
        out.push(self.padding);
        out
    }
}

/// The control word the bring-up sequence commands at a given step count.
pub open spec fn spec_control_word(step: u32) -> u16 {
    if step < 1000 {
        CONTROL_FAULT_RESET
    } else if step < 1500 {
        CONTROL_SHUTDOWN
    } else if step < 2000 {
        CONTROL_SWITCH_ON
    } else {
        CONTROL_ENABLE_OP
    }
}

/// True once the sequence drives the attached session's commanded velocity
/// instead of zero.
pub open spec fn spec_uses_session_velocity(step: u32) -> bool {
    step >= 2500
}

/// The step counter after one cyclic frame: up by one, saturating at the cap.
pub open spec fn spec_step_advance(step: u32) -> u32 {
    if step < STEP_CAP {
        (step + 1) as u32
    } else {
        step
    }
}

/// Computes the control word and whether the session's velocity is driven,
/// for a given step count.
pub fn control_for_step(step: u32) -> (r: (u16, bool))
    ensures
        r.0 == spec_control_word(step),
        r.1 == spec_uses_session_velocity(step),
{
    let control = if step < 1000 {
        CONTROL_FAULT_RESET
    } else if step < 1500 {
        CONTROL_SHUTDOWN
    } else if step < 2000 {
        CONTROL_SWITCH_ON
    } else {
        CONTROL_ENABLE_OP
    };
    (control, step >= 2500)
}

/// The bring-up sequence is a fixed open-loop function of the step counter:
/// with the counter incrementing one by one, what the cyclic frame commands
/// changes exactly when the counter reaches 1000, 1500, 2000 or 2500, and
/// never afterwards within a band.
pub proof fn lemma_step_thresholds(step: u32)
    requires
        step < u32::MAX,
    ensures
        (spec_control_word((step + 1) as u32) != spec_control_word(step)
            || spec_uses_session_velocity((step + 1) as u32) != spec_uses_session_velocity(step))
            <==> (step + 1 == 1000 || step + 1 == 1500 || step + 1 == 2000 || step + 1 == 2500),
{
}

/// Marker for the protocol-specific half of an EtherCAT session.
#[derive(Clone, Copy, PartialEq, Eq, Structural, Debug)]
pub struct Ds402Backend;

/// Commands a collaborator sends for one EtherCAT sub-device.
#[derive(Debug)]
pub enum Ds402Cmd {
    Add(MotorConfig),
    Remove,
    SetWaveForm(MotorInput),
    StopWaveform,
    Shutdown,
}

/// Events a sub-device reports back, timestamped in nanosecond ticks.
#[derive(Debug)]
pub enum Ds402Response {
    OutputCVP(CVP, u64),
    ControllerAdjustedCVP(CVP, u64),
    Timeout,
    DuplicateInstances,
    EndWaveform,
}

/// Per-sub-device bring-up state: `Idle` before the first frame, then `Test`
/// with the saturating step counter and the optionally attached session.
pub enum UserState {
    Idle,
    Test(u32, Option<Backend<Ds402Backend>>),
}

/// What the target-velocity field of the next outbound frame is driven from.
#[derive(Clone, Copy, PartialEq, Eq, Structural, Debug)]
pub enum VelocityTarget {
    /// Write zero.
    Zero,
    /// Write the rounding of this scalar pattern to wire units.
    Scalar(u64),
}

/// What one cyclic exchange asks the caller to do.
pub struct CyclicAction {
    /// Control word of the next outbound frame.
    pub control: u16,
    /// Source of the target-velocity field of the next outbound frame.
    pub velocity: VelocityTarget,
    /// Operation mode byte of the next outbound frame.
    pub opmode: u8,
    /// Decoded telemetry to forward, if this exchange carried a frame.
    pub telemetry: Option<CVP>,
    /// True exactly when the attached session's waveform just completed.
    pub end_waveform: bool,
}

/// The commanded velocity pattern of an attached session, zero when no input
/// is computed.
pub open spec fn spec_session_velocity(m: Backend<Ds402Backend>) -> u64 {
    match m.input_cvp {
        Some(c) => c.velocity,
        None => 0,
    }
}

impl UserState {
    /// Starts idle.
    pub fn new() -> (r: UserState)
        ensures
            r is Idle,
    {
        UserState::Idle
    }

    /// Drives one cyclic exchange.  From `Idle` it issues the fault-reset
    /// frame and enters `Test`; in `Test` it advances the saturating step
    /// counter, decodes the received 12-byte frame, and commands the control
    /// word and velocity of the step's threshold band, updating the attached
    /// session's waveform only once the sequence drives its velocity.
    pub fn update(&mut self, received: Option<&[u8]>, now_ns: u64) -> (r: CyclicAction)
        requires
            *old(self) is Test ==> (received matches Some(f) && f@.len() == RECV_FRAME_LEN),
        ensures
            match *old(self) {
                UserState::Idle => {
                    &&& *final(self) == UserState::Test(0, None::<Backend<Ds402Backend>>)
                    &&& r.control == CONTROL_FAULT_RESET
                    &&& r.velocity == VelocityTarget::Zero
                    &&& r.opmode == OP_MODE
                    &&& r.telemetry is None
                    &&& !r.end_waveform
                },
                UserState::Test(step, motor) => {
                    let new_step = spec_step_advance(step);
                    let frame = received.unwrap()@;
                    let telem = CVP {
                        position: spec_signed32(spec_le32(frame, 2)) as i32,
                        velocity: spec_signed32(spec_le32(frame, 6)) as i32,
                        torque: spec_signed16(spec_le16(frame, 10)) as i16,
                    };
                    &&& r.telemetry == Some(telem)
                    &&& r.control == spec_control_word(new_step)
                    &&& r.opmode == OP_MODE
                    &&& if spec_uses_session_velocity(new_step) {
                        match motor {
                            Some(m) => {
                                let m2 = spec_updated_input(m, now_ns);
                                &&& *final(self) == UserState::Test(new_step, Some(m2))
                                &&& r.end_waveform == spec_update_ends(m, now_ns)
                                &&& r.velocity == VelocityTarget::Scalar(spec_session_velocity(m2))
                            },
                            None => {
                                &&& *final(self) == UserState::Test(
                                    new_step,
                                    None::<Backend<Ds402Backend>>,
                                )
                                &&& r.velocity == VelocityTarget::Zero
                                &&& !r.end_waveform
                            },
                        }
                    } else {
                        &&& *final(self) == UserState::Test(new_step, motor)
                        &&& r.velocity == VelocityTarget::Zero
                        &&& !r.end_waveform
                    }
                },
            },
    {
        match self {
            UserState::Idle => {
                *self = UserState::Test(0, None);
                CyclicAction {
                    control: CONTROL_FAULT_RESET,
                    velocity: VelocityTarget::Zero,
                    opmode: OP_MODE,
                    telemetry: None,
                    end_waveform: false,
                }
            }
            UserState::Test(step, motor) => {
                if *step < STEP_CAP {
                    *step = *step + 1;
                }
                let frame = received.unwrap();
                let recv = RecvObj::unpack(frame);
                let telem = recv.cvp();
                let (control, use_session) = control_for_step(*step);
                let mut end_waveform = false;
                let velocity = if use_session {
                    match motor {
                        Some(m) => {
                            end_waveform = m.update_input(now_ns);
                            let token = match &m.input_cvp {
                                Some(c) => c.velocity,
                                None => 0,
                            };
                            VelocityTarget::Scalar(token)
                        }
                        None => VelocityTarget::Zero,
                    }
                } else {
                    VelocityTarget::Zero
                };
                CyclicAction {
                    control,
                    velocity,
                    opmode: OP_MODE,
                    telemetry: Some(telem),
                    end_waveform,
                }
            }
        }
    }

    /// Applies a collaborator command.  `Add` attaches a session only when
    /// none is attached, reporting a duplicate otherwise and leaving the
    /// attached session untouched; `StopWaveform` detaches and reports the
    /// end of the waveform; `Remove` and `Shutdown` are not implemented on
    /// this transport.
    pub fn apply_cmd(&mut self, cmd: Ds402Cmd, now_ns: u64) -> (resp: Option<Ds402Response>)
        ensures
            match cmd {
                Ds402Cmd::Add(cfg) => match *old(self) {
                    UserState::Test(step, motor) => match motor {
                        None => {
                            &&& resp is None
                            &&& match *final(self) {
                                UserState::Test(step2, Some(m)) => {
                                    &&& step2 == step
                                    &&& m.motor_config == cfg
                                    &&& m.input_cvp is None
                                    &&& m.request_input is None
                                    &&& m.backend_specific == Ds402Backend
                                },
                                _ => false,
                            }
                        },
                        Some(m) => {
                            &&& resp == Some(Ds402Response::DuplicateInstances)
                            &&& *final(self) == *old(self)
                        },
                    },
                    UserState::Idle => {
                        &&& resp is None
                        &&& *final(self) == *old(self)
                    },
                },
                Ds402Cmd::SetWaveForm(w) => match *old(self) {
                    UserState::Test(step, Some(m)) => {
                        &&& resp is None
                        &&& match *final(self) {
                            UserState::Test(step2, Some(m2)) => {
                                &&& step2 == step
                                &&& crate::motor_backend::spec_waveform_set(m, m2, w, now_ns)
                            },
                            _ => false,
                        }
                    },
                    _ => {
                        &&& resp is None
                        &&& *final(self) == *old(self)
                    },
                },
                Ds402Cmd::StopWaveform => {
                    &&& resp == Some(Ds402Response::EndWaveform)
                    &&& match *old(self) {
                        UserState::Test(step, motor) => *final(self) == UserState::Test(
                            step,
                            None::<Backend<Ds402Backend>>,
                        ),
                        UserState::Idle => *final(self) == *old(self),
                    }
                },
                _ => {
                    &&& resp is None
                    &&& *final(self) == *old(self)
                },
            },
    {
        match cmd {
            Ds402Cmd::Add(cfg) => match self {
                UserState::Test(_, motor) => {
                    if motor.is_none() {
                        *motor = Some(Backend::new(cfg, Ds402Backend, None, now_ns));
                        None
                    } else {
                        Some(Ds402Response::DuplicateInstances)
                    }
                }
                UserState::Idle => None,
            },
            Ds402Cmd::SetWaveForm(w) => {
                match self {
                    UserState::Test(_, Some(m)) => {
                        m.set_waveform(w, now_ns);
                    }
                    _ => {}
                }
                None
            }
            Ds402Cmd::StopWaveform => {
                match self {
                    UserState::Test(_, motor) => {
                        *motor = None;
                    }
                    UserState::Idle => {}
                }
                Some(Ds402Response::EndWaveform)
            }
            _ => None,
        }
    }
}

/// One pending write transaction's retry budget.
#[derive(Clone, Copy, PartialEq, Eq, Structural, Debug)]
pub struct TxRetry {
    pub retries_remaining: u32,
}

/// What a timed-out transaction asks the caller to do.
#[derive(Clone, Copy, PartialEq, Eq, Structural, Debug)]
pub enum TimeoutAction {
    /// Retries exhausted: clear the timeout and abandon the transaction.
    Abandon,
    /// Resubmit the same frame and burn one retry.
    Resubmit,
}

impl TxRetry {
    /// Starts a transaction with the configured retry count.
    pub fn new(retries: u32) -> (r: TxRetry)
        ensures
            r.retries_remaining == retries,
    {
        TxRetry { retries_remaining: retries }
    }

    /// Decides what a timeout completion does: resubmit while retries
    /// remain, decrementing the budget; abandon once it is exhausted.
    pub fn on_timeout(&mut self) -> (r: TimeoutAction)
        ensures
            old(self).retries_remaining == 0 ==> {
                &&& r == TimeoutAction::Abandon
                &&& *final(self) == *old(self)
            },
            old(self).retries_remaining > 0 ==> {
                &&& r == TimeoutAction::Resubmit
                &&& final(self).retries_remaining == old(self).retries_remaining - 1
            },
    {
        if self.retries_remaining == 0 {
            TimeoutAction::Abandon
        } else {
            self.retries_remaining = self.retries_remaining - 1;
            TimeoutAction::Resubmit
        }
    }
}

/// A front end's per-motor connection settings for this transport: the
/// sub-device index under edit, the parsed index, and whether the session
/// was added.
#[derive(Debug)]
pub struct MotorUiConfig {
    pub idx_storage: String,
    pub idx: Option<usize>,
    pub added: bool,
}

impl Default for MotorUiConfig {
    fn default() -> (r: MotorUiConfig)
        ensures
            r.idx_storage@.len() == 0,
            r.idx is None,
            !r.added,
    {
        MotorUiConfig { idx_storage: String::new(), idx: None, added: false }
    }
}

impl MotorUiConfig {
    /// The configured sub-device index.
    pub fn idx(&self) -> (r: Option<usize>)
        ensures
            r == self.idx,
    {
        self.idx
    }
}

/// Operation-mode parameters an extended bring-up would write over SDO
/// before the cyclic exchange, each carrying the value to write.
pub enum UserControlInitState {
    MaxVelocity(u32),
    MaxAcceleration(u32),
    QuickStopDecel(u32),
    ProfileDecel(u32),
}

} // verus!
