use vstd::prelude::*;
use crate::motor_backend::{
    spec_update_ends, spec_updated_input, spec_waveform_set, Backend,
};
use crate::motor_ctx::{ControlState, MotorConfig, CVP};
use crate::motor_input::MotorInput;

verus! {

/// How a session's commands are put on the wire: compact binary structs or
/// JSON bodies.
#[derive(PartialEq, Eq, Structural, Clone, Copy, Debug)]
pub enum FourierEncodeKind {
    Json,
    Binary,
}

/// The telemetry state code that acknowledges the enable handshake.
pub const ENABLE_ACK_STATE: u32 = 8;

/// Protocol-specific half of a UDP session: encoding choice, per-cycle read
/// timeout, the enable-handshake flag, and the removal mark.
#[derive(PartialEq, Eq, Structural, Clone, Copy, Debug)]
pub struct FourierBackend {
    pub encode: FourierEncodeKind,
    pub read_timeout_ns: Option<u64>,
    pub enabled: bool,
    pub remove_next_recv: bool,
}

/// Commands a collaborator sends for one UDP session, keyed by the device's
/// IPv4 address carried as its 32-bit value.
#[derive(Debug)]
pub enum FourierCmd {
    Add(FourierEncodeKind, Option<u64>, MotorConfig),
    Remove,
    SetWaveForm(MotorInput),
    StopWaveform,
    Shutdown,
}

/// Events a session reports back, timestamped in nanosecond ticks.  `Error`
/// carries the raw negated completion result.
#[derive(Debug)]
pub enum FourierResponse {
    OutputCVP(CVP, u64),
    ControllerAdjustedCVP(CVP, u64),
    Error(i32),
    Timeout,
    DuplicateConnections,
    EndWaveform,
}

/// Which wire message the next cycle sends.
#[derive(PartialEq, Eq, Structural, Clone, Copy, Debug)]
pub enum CommandSelect {
    /// The one-time "set requested state: enable" handshake.
    Enable,
    SetPosition(FourierEncodeKind),
    SetVelocity(FourierEncodeKind),
    SetCurrent(FourierEncodeKind),
}

/// One request/response cycle to put on the wire for a session: the message
/// to encode, the raw commanded triple and gear scale to encode it from, and
/// the read timeout to arm.
#[derive(PartialEq, Eq, Structural, Clone, Copy, Debug)]
pub struct Submission {
    pub ip: u32,
    pub select: CommandSelect,
    pub cvp: CVP,
    pub gear_reduction: u64,
    pub read_timeout_ns: Option<u64>,
}

/// One session table entry.  `in_flight` counts the session's outstanding
/// submitted-but-uncompleted cycles.
pub struct Connection {
    pub ip: u32,
    pub session: Backend<FourierBackend>,
    pub in_flight: u8,
}

/// What the wire handed back for one completed cycle, after the caller
/// decoded the payload: the handshake acknowledgement's state code, a
/// telemetry triple, or an undecodable payload; or the cycle's failure.
#[derive(PartialEq, Eq, Structural, Clone, Copy, Debug)]
pub enum ParsedReply {
    StateAck(u32),
    Telemetry(CVP),
    Malformed,
}

/// Classification of one completion-queue entry for a session's cycle.
#[derive(PartialEq, Eq, Structural, Clone, Copy, Debug)]
pub enum Completion {
    Received(ParsedReply),
    Cancelled,
    TimedOut,
    Failed(i32),
}

/// What the reactor asks the caller to do after handling a completion.
pub struct CompletionOutcome {
    /// Events to forward on the response channel, in order.
    pub responses: Vec<(u32, FourierResponse)>,
    /// The next cycle to submit, if any.
    pub submit: Option<Submission>,
    /// True when a drained shutdown has emptied the table and the loop ends.
    pub finished: bool,
}

/// The message the next cycle of a session sends: the enable handshake until
/// it is acknowledged, then the set-command of the configured control state
/// in the configured encoding.
pub open spec fn spec_select(b: Backend<FourierBackend>) -> CommandSelect {
    if !b.backend_specific.enabled {
        CommandSelect::Enable
    } else {
        match b.motor_config.state {
            ControlState::Position { .. } => CommandSelect::SetPosition(b.backend_specific.encode),
            ControlState::Velocity { .. } => CommandSelect::SetVelocity(b.backend_specific.encode),
            ControlState::Torque { .. } => CommandSelect::SetCurrent(b.backend_specific.encode),
        }
    }
}

/// The session's commanded triple, idle when none is computed.
pub open spec fn spec_input_or_zero(b: Backend<FourierBackend>) -> CVP {
    match b.input_cvp {
        Some(c) => c,
        None => CVP::spec_zero(),
    }
}

/// The cycle a session submits next.
pub open spec fn spec_submission(c: Connection) -> Submission {
    Submission {
        ip: c.ip,
        select: spec_select(c.session),
        cvp: spec_input_or_zero(c.session),
        gear_reduction: c.session.motor_config.gear_reduction,
        read_timeout_ns: c.session.backend_specific.read_timeout_ns,
    }
}

/// True when the table holds a session for `ip`.
pub open spec fn spec_has(conns: Seq<Connection>, ip: u32) -> bool {
    exists|i: int| 0 <= i < conns.len() && conns[i].ip == ip
}

/// The index of `ip`'s session; meaningful only when the table holds one.
pub open spec fn spec_index_of(conns: Seq<Connection>, ip: u32) -> int {
    choose|i: int| 0 <= i < conns.len() && conns[i].ip == ip
}

/// In a table with unique identities, the index of a held identity is the
/// one position that holds it.
proof fn lemma_index_of_unique(conns: Seq<Connection>, ip: u32, i: int)
    requires
        forall|p: int, q: int| 0 <= p < q < conns.len() ==> conns[p].ip != conns[q].ip,
        0 <= i < conns.len(),
        conns[i].ip == ip,
    ensures
        spec_index_of(conns, ip) == i,
{
    assert(spec_has(conns, ip));
    let j = spec_index_of(conns, ip);
    assert(0 <= j < conns.len() && conns[j].ip == ip);
    if j < i {
        assert(conns[j].ip != conns[i].ip);
    } else if j > i {
        assert(conns[i].ip != conns[j].ip);
    }
}

/// The entry as a removal mark leaves it: the same session, with
/// `remove_next_recv` set.
pub open spec fn spec_marked_for_removal(c: Connection) -> Connection {
    Connection {
        session: Backend {
            backend_specific: FourierBackend {
                remove_next_recv: true,
                ..c.session.backend_specific
            },
            ..c.session
        },
        ..c
    }
}

/// The reactor state of the UDP protocol family: its exclusively owned
/// session table and the shutdown mark.
pub struct FourierReactor {
    pub connections: Vec<Connection>,
    pub request_shutdown: bool,
}

impl FourierReactor {
    /// Table well-formedness: session identities are unique, and no session
    /// ever has more than one cycle outstanding.
    pub open spec fn wf(self) -> bool {
        &&& forall|i: int, j: int|
            0 <= i < j < self.connections@.len() ==> self.connections@[i].ip
                != self.connections@[j].ip
        &&& forall|i: int|
            0 <= i < self.connections@.len() ==> #[trigger] self.connections@[i].in_flight <= 1
    }

    /// An empty reactor.
    pub fn new() -> (r: FourierReactor)
        ensures
            r.wf(),
            r.connections@.len() == 0,
            !r.request_shutdown,
    {
        FourierReactor { connections: Vec::new(), request_shutdown: false }
    }

    /// Looks a session up by identity.
    fn find(&self, ip: u32) -> (r: Option<usize>)
        ensures
            match r {
                Some(i) => i < self.connections@.len() && self.connections@[i as int].ip == ip,
                None => !spec_has(self.connections@, ip),
            },
    {
        let mut i: usize = 0;
        while i < self.connections.len()
            invariant
                i <= self.connections@.len(),
                forall|j: int| 0 <= j < i ==> self.connections@[j].ip != ip,
            decreases self.connections@.len() - i,
        {
            if self.connections[i].ip == ip {
                return Some(i);
            }
            i = i + 1;
        }
        None
    }

    /// For any session of a well-formed reactor, the number of outstanding
    /// submitted-but-uncompleted cycles is at most one.
    pub proof fn lemma_outstanding_at_most_one(self, i: int)
        requires
            self.wf(),
            0 <= i < self.connections@.len(),
        ensures
            self.connections@[i].in_flight <= 1,
    {
    }
}

impl FourierReactor {
    /// Applies one collaborator command.  `Add` for an identity already in
    /// the table reports `DuplicateConnections` and leaves everything,
    /// including the prior session's configuration, untouched; a fresh `Add`
    /// inserts the session and submits its first cycle, the enable
    /// handshake.  `Remove` and `Shutdown` mark sessions for a graceful
    /// one-cycle drain; a marked session ignores `SetWaveForm`.
    pub fn apply_cmd(&mut self, ip: u32, cmd: FourierCmd, now_ns: u64) -> (r: (
        Option<FourierResponse>,
        Option<Submission>,
    ))
        requires
            old(self).wf(),
        ensures
            final(self).wf(),
            match cmd {
                FourierCmd::Add(encode, timeout_ns, config) => {
                    if spec_has(old(self).connections@, ip) {
                        &&& r.0 == Some(FourierResponse::DuplicateConnections)
                        &&& r.1 is None
                        &&& final(self).connections@ == old(self).connections@
                        &&& final(self).request_shutdown == old(self).request_shutdown
                    } else {
                        let n = old(self).connections@.len() as int;
                        &&& r.0 is None
                        &&& final(self).request_shutdown == old(self).request_shutdown
                        &&& final(self).connections@.len() == n + 1
                        &&& final(self).connections@.subrange(0, n) == old(self).connections@
                        &&& {
                            let c = final(self).connections@.last();
                            &&& c.ip == ip
                            &&& c.in_flight == 1
                            &&& c.session.motor_config == config
                            &&& c.session.input_cvp is None
                            &&& c.session.request_input is None
                            &&& c.session.backend_specific == (FourierBackend {
                                encode,
                                read_timeout_ns: timeout_ns,
                                enabled: false,
                                remove_next_recv: false,
                            })
                            &&& r.1 == Some(spec_submission(c))
                        }
                    }
                },
                FourierCmd::Remove => {
                    &&& r.0 is None
                    &&& r.1 is None
                    &&& final(self).request_shutdown == old(self).request_shutdown
                    &&& if spec_has(old(self).connections@, ip) {
                        let i = spec_index_of(old(self).connections@, ip);
                        let c = old(self).connections@[i];
                        final(self).connections@ == old(self).connections@.update(
                            i,
                            spec_marked_for_removal(c),
                        )
                    } else {
                        final(self).connections@ == old(self).connections@
                    }
                },
                FourierCmd::SetWaveForm(w) => {
                    &&& r.0 is None
                    &&& r.1 is None
                    &&& final(self).request_shutdown == old(self).request_shutdown
                    &&& if spec_has(old(self).connections@, ip)
                        && !old(self).connections@[spec_index_of(old(self).connections@, ip)]
                        .session.backend_specific.remove_next_recv {
                        let i = spec_index_of(old(self).connections@, ip);
                        let c = old(self).connections@[i];
                        &&& final(self).connections@.len() == old(self).connections@.len()
                        &&& (forall|j: int|
                            0 <= j < old(self).connections@.len() && j != i
                                ==> final(self).connections@[j] == old(self).connections@[j])
                        &&& final(self).connections@[i].ip == c.ip
                        &&& final(self).connections@[i].in_flight == c.in_flight
                        &&& spec_waveform_set(
                            c.session,
                            final(self).connections@[i].session,
                            w,
                            now_ns,
                        )
                    } else {
                        final(self).connections@ == old(self).connections@
                    }
                },
                FourierCmd::StopWaveform => {
                    &&& r.1 is None
                    &&& final(self).request_shutdown == old(self).request_shutdown
                    &&& if spec_has(old(self).connections@, ip) {
                        let i = spec_index_of(old(self).connections@, ip);
                        let c = old(self).connections@[i];
                        &&& r.0 == Some(FourierResponse::EndWaveform)
                        &&& final(self).connections@ == old(self).connections@.update(
                            i,
                            Connection {
                                session: Backend {
                                    input_cvp: Some(CVP::spec_zero()),
                                    request_input: None,
                                    ..c.session
                                },
                                ..c
                            },
                        )
                    } else {
                        &&& r.0 is None
                        &&& final(self).connections@ == old(self).connections@
                    }
                },
                FourierCmd::Shutdown => {
                    &&& r.0 is None
                    &&& r.1 is None
                    &&& final(self).request_shutdown
                    &&& final(self).connections@.len() == old(self).connections@.len()
                    &&& forall|j: int|
                        0 <= j < old(self).connections@.len()
                            ==> #[trigger] final(self).connections@[j]
                            == spec_marked_for_removal(old(self).connections@[j])
                },
            },
    {
        match cmd {
            FourierCmd::Add(encode, timeout_ns, config) => {
                if let Some(_i) = self.find(ip) {
                    return (Some(FourierResponse::DuplicateConnections), None);
                }
                let backend = FourierBackend {
                    encode,
                    read_timeout_ns: timeout_ns,
                    enabled: false,
                    remove_next_recv: false,
                };
                let conn = Connection {
                    ip,
                    session: Backend::new(config, backend, None, now_ns),
                    in_flight: 1,
                };
                let sub = prepare_submission(&conn);
                self.connections.push(conn);
                proof {
                    assert(final(self).connections@.subrange(
                        0,
                        old(self).connections@.len() as int,
                    ) =~= old(self).connections@);
                }
                (None, Some(sub))
            }
            FourierCmd::Remove => {
                if let Some(i) = self.find(ip) {
                    proof {
                        lemma_index_of_unique(self.connections@, ip, i as int);
                    }
                    let c = &mut self.connections[i];
                    c.session.backend_specific.remove_next_recv = true;
                }
                (None, None)
            }
            FourierCmd::SetWaveForm(w) => {
                if let Some(i) = self.find(ip) {
                    proof {
                        lemma_index_of_unique(self.connections@, ip, i as int);
                    }
                    let c = &mut self.connections[i];
                    if !c.session.backend_specific.remove_next_recv {
                        c.session.set_waveform(w, now_ns);
                    }
                }
                (None, None)
            }
            FourierCmd::StopWaveform => {
                if let Some(i) = self.find(ip) {
                    proof {
                        lemma_index_of_unique(self.connections@, ip, i as int);
                    }
                    let c = &mut self.connections[i];
                    c.session.stop_waveform();
                    (Some(FourierResponse::EndWaveform), None)
                } else {
                    (None, None)
                }
            }
            FourierCmd::Shutdown => {
                self.request_shutdown = true;
                let mut i: usize = 0;
                while i < self.connections.len()
                    invariant
                        i <= self.connections@.len(),
                        self.connections@.len() == old(self).connections@.len(),
                        forall|j: int|
                            0 <= j < i ==> #[trigger] self.connections@[j]
                                == spec_marked_for_removal(old(self).connections@[j]),
                        forall|j: int|
                            i <= j < self.connections@.len()
                                ==> #[trigger] self.connections@[j]
                                == old(self).connections@[j],
                        self.request_shutdown,
                    decreases self.connections@.len() - i,
                {
                    let c = &mut self.connections[i];
                    c.session.backend_specific.remove_next_recv = true;
                    i = i + 1;
                }
                (None, None)
            }
        }
    }
}

/// True when the reply is the handshake acknowledgement: telemetry showing
/// the enable state code.
pub open spec fn spec_ack_enables(reply: ParsedReply) -> bool {
    match reply {
        ParsedReply::StateAck(code) => code == ENABLE_ACK_STATE,
        _ => false,
    }
}

/// The session after a receive completes before the handshake is
/// acknowledged: enabled exactly when the reply acknowledged it.
pub open spec fn spec_handshake_session(s: Backend<FourierBackend>, reply: ParsedReply) -> Backend<
    FourierBackend,
> {
    Backend {
        backend_specific: FourierBackend { enabled: spec_ack_enables(reply), ..s.backend_specific },
        ..s
    }
}

/// The session after a telemetry cycle: the waveform input recomputed, and,
/// when a controller is configured, the input replaced by its adjustment of
/// the commanded triple.
pub open spec fn spec_telemetry_session(s: Backend<FourierBackend>, now_ns: u64) -> Backend<
    FourierBackend,
> {
    let s1 = spec_updated_input(s, now_ns);
    if s1.motor_config.controller is Some {
        Backend { input_cvp: Some(spec_input_or_zero(s1)), ..s1 }
    } else {
        s1
    }
}

/// The events a telemetry cycle reports, in order: the end of a just
/// completed waveform, then either the controller's adjusted command or the
/// measured output.
pub open spec fn spec_telemetry_responses(
    ip: u32,
    s: Backend<FourierBackend>,
    cvp: CVP,
    now_ns: u64,
) -> Seq<(u32, FourierResponse)> {
    let s1 = spec_updated_input(s, now_ns);
    let head: Seq<(u32, FourierResponse)> = if spec_update_ends(s, now_ns) {
        seq![(ip, FourierResponse::EndWaveform)]
    } else {
        Seq::empty()
    };
    let main: Seq<(u32, FourierResponse)> = if s1.motor_config.controller is Some {
        seq![(ip, FourierResponse::ControllerAdjustedCVP(spec_input_or_zero(s1), now_ns))]
    } else {
        seq![(ip, FourierResponse::OutputCVP(cvp, now_ns))]
    };
    head + main
}

impl FourierReactor {
    /// Handles one classified completion for `ip`'s cycle.  A cancelled
    /// entry and an unknown identity are ignored.  A session marked for
    /// removal is dropped once its in-flight cycle completes, however it
    /// completed, finishing a requested shutdown when the table empties.  A
    /// receive before the handshake acknowledgement only settles the enabled
    /// flag and resubmits.  On telemetry the waveform input is recomputed,
    /// the events are reported, and the next cycle is submitted at once,
    /// keeping exactly one cycle outstanding.  A timeout or an undecodable
    /// payload clears the handshake so the next cycle re-enables; any other
    /// failure is reported and the cycle resubmitted.
    pub fn on_completion(&mut self, ip: u32, completion: Completion, now_ns: u64) -> (r:
        CompletionOutcome)
        requires
            old(self).wf(),
        ensures
            final(self).wf(),
            final(self).request_shutdown == old(self).request_shutdown,
            if !spec_has(old(self).connections@, ip) || completion is Cancelled {
                &&& final(self).connections@ == old(self).connections@
                &&& r.responses@ == Seq::<(u32, FourierResponse)>::empty()
                &&& r.submit is None
                &&& !r.finished
            } else {
                let i = spec_index_of(old(self).connections@, ip);
                let c = old(self).connections@[i];
                if c.session.backend_specific.remove_next_recv {
                    &&& final(self).connections@ == old(self).connections@.remove(i)
                    &&& r.responses@ == Seq::<(u32, FourierResponse)>::empty()
                    &&& r.submit is None
                    &&& r.finished == (old(self).request_shutdown && old(
                        self,
                    ).connections@.len() == 1)
                } else {
                match completion {
                    Completion::Received(reply) => {
                        if !c.session.backend_specific.enabled {
                            let c2 = Connection {
                                session: spec_handshake_session(c.session, reply),
                                in_flight: 1,
                                ..c
                            };
                            &&& final(self).connections@ == old(self).connections@.update(i, c2)
                            &&& r.responses@ == Seq::<(u32, FourierResponse)>::empty()
                            &&& r.submit == Some(spec_submission(c2))
                            &&& !r.finished
                        } else {
                            match reply {
                                ParsedReply::Telemetry(cvp) => {
                                    let c2 = Connection {
                                        session: spec_telemetry_session(c.session, now_ns),
                                        in_flight: 1,
                                        ..c
                                    };
                                    &&& final(self).connections@ == old(
                                        self,
                                    ).connections@.update(i, c2)
                                    &&& r.responses@ == spec_telemetry_responses(
                                        ip,
                                        c.session,
                                        cvp,
                                        now_ns,
                                    )
                                    &&& r.submit == Some(spec_submission(c2))
                                    &&& !r.finished
                                },
                                _ => {
                                    let c2 = Connection {
                                        session: Backend {
                                            backend_specific: FourierBackend {
                                                enabled: false,
                                                ..c.session.backend_specific
                                            },
                                            ..c.session
                                        },
                                        in_flight: 1,
                                        ..c
                                    };
                                    &&& final(self).connections@ == old(self).connections@.update(
                                        i,
                                        c2,
                                    )
                                    &&& r.responses@ == Seq::<(u32, FourierResponse)>::empty()
                                    &&& r.submit == Some(spec_submission(c2))
                                    &&& !r.finished
                                },
                            }
                        }
                    },
                    Completion::TimedOut => {
                        let c2 = Connection {
                            session: Backend {
                                backend_specific: FourierBackend {
                                    enabled: false,
                                    ..c.session.backend_specific
                                },
                                ..c.session
                            },
                            in_flight: 1,
                            ..c
                        };
                        &&& final(self).connections@ == old(self).connections@.update(i, c2)
                        &&& r.responses@ == seq![(ip, FourierResponse::Timeout)]
                        &&& r.submit == Some(spec_submission(c2))
                        &&& !r.finished
                    },
                    Completion::Failed(errno) => {
                        let c2 = Connection { in_flight: 1, ..c };
                        &&& final(self).connections@ == old(self).connections@.update(i, c2)
                        &&& r.responses@ == seq![(ip, FourierResponse::Error(errno))]
                        &&& r.submit == Some(spec_submission(c2))
                        &&& !r.finished
                    },
                    Completion::Cancelled => false,
                }
                }
            },
    {
        let idx = match self.find(ip) {
            Some(i) => i,
            None => {
                return CompletionOutcome { responses: Vec::new(), submit: None, finished: false };
            },
        };
        proof {
            lemma_index_of_unique(self.connections@, ip, idx as int);
        }
        if matches!(completion, Completion::Cancelled) {
            return CompletionOutcome { responses: Vec::new(), submit: None, finished: false };
        }
        if self.connections[idx].session.backend_specific.remove_next_recv {
            self.connections.remove(idx);
            let finished = self.request_shutdown && self.connections.len() == 0;
            return CompletionOutcome { responses: Vec::new(), submit: None, finished };
        }
        match completion {
            Completion::Cancelled => CompletionOutcome {
                responses: Vec::new(),
                submit: None,
                finished: false,
            },
            Completion::Received(reply) => {
                if !self.connections[idx].session.backend_specific.enabled {
                    let acked = match reply {
                        ParsedReply::StateAck(code) => code == ENABLE_ACK_STATE,
                        _ => false,
                    };
                    let c = &mut self.connections[idx];
                    c.session.backend_specific.enabled = acked;
                    c.in_flight = 1;
                    let sub = prepare_submission(&self.connections[idx]);
                    CompletionOutcome {
                        responses: Vec::new(),
                        submit: Some(sub),
                        finished: false,
                    }
                } else {
                    match reply {
                        ParsedReply::Telemetry(cvp) => {
                            {
                                let ghost s0 = self.connections@[idx as int].session;
                                let mut responses: Vec<(u32, FourierResponse)> = Vec::new();
                                let c = &mut self.connections[idx];
                                let end = c.session.update_input(now_ns);
                                if end {
                                    responses.push((ip, FourierResponse::EndWaveform));
                                }
                                if c.session.motor_config.controller.is_some() {
                                    let input = match &c.session.input_cvp {
                                        Some(v) => *v,
                                        None => CVP::zero(),
                                    };
                                    let state = c.session.motor_config.state;
                                    let adjusted = match &mut c.session.motor_config.controller {
                                        Some(ctrl) => ctrl.update(input, cvp, &state),
                                        None => input,
                                    };
                                    responses.push(
                                        (ip, FourierResponse::ControllerAdjustedCVP(
                                            adjusted,
                                            now_ns,
                                        )),
                                    );
                                    c.session.input_cvp = Some(adjusted);
                                } else {
                                    responses.push(
                                        (ip, FourierResponse::OutputCVP(cvp, now_ns)),
                                    );
                                }
                                c.in_flight = 1;
                                let sub = prepare_submission(&self.connections[idx]);
                                proof {
                                    assert(responses@ =~= spec_telemetry_responses(
                                        ip,
                                        s0,
                                        cvp,
                                        now_ns,
                                    ));
                                }
                                CompletionOutcome {
                                    responses,
                                    submit: Some(sub),
                                    finished: false,
                                }
                            }
                        }
                        _ => {
                            // A payload that decodes to no telemetry forces a
                            // re-handshake before the next command.
                            let c = &mut self.connections[idx];
                            c.session.backend_specific.enabled = false;
                            c.in_flight = 1;
                            let sub = prepare_submission(&self.connections[idx]);
                            CompletionOutcome {
                                responses: Vec::new(),
                                submit: Some(sub),
                                finished: false,
                            }
                        }
                    }
                }
            }
            Completion::TimedOut => {
                let c = &mut self.connections[idx];
                c.session.backend_specific.enabled = false;
                c.in_flight = 1;
                let mut responses: Vec<(u32, FourierResponse)> = Vec::new();
                responses.push((ip, FourierResponse::Timeout));
                let sub = prepare_submission(&self.connections[idx]);
                proof {
                    assert(responses@ =~= seq![(ip, FourierResponse::Timeout)]);
                }
                CompletionOutcome { responses, submit: Some(sub), finished: false }
            }
            Completion::Failed(errno) => {
                let c = &mut self.connections[idx];
                c.in_flight = 1;
                let mut responses: Vec<(u32, FourierResponse)> = Vec::new();
                responses.push((ip, FourierResponse::Error(errno)));
                let sub = prepare_submission(&self.connections[idx]);
                proof {
                    assert(responses@ =~= seq![(ip, FourierResponse::Error(errno))]);
                }
                CompletionOutcome { responses, submit: Some(sub), finished: false }
            }
        }
    }

    /// How to decode the next received payload for `ip`: whether the
    /// handshake is still pending, and the session's encoding.
    pub fn parse_mode(&self, ip: u32) -> (r: Option<(bool, FourierEncodeKind)>)
        requires
            self.wf(),
        ensures
            match r {
                Some(m) => {
                    &&& spec_has(self.connections@, ip)
                    &&& {
                        let c = self.connections@[spec_index_of(self.connections@, ip)];
                        m == (
                            c.session.backend_specific.enabled,
                            c.session.backend_specific.encode,
                        )
                    }
                },
                None => !spec_has(self.connections@, ip),
            },
    {
        match self.find(ip) {
            Some(i) => {
                proof {
                    lemma_index_of_unique(self.connections@, ip, i as int);
                }
                Some(
                    (
                        self.connections[i].session.backend_specific.enabled,
                        self.connections[i].session.backend_specific.encode,
                    ),
                )
            },
            None => None,
        }
    }
}

fn prepare_submission(c: &Connection) -> (s: Submission)
    ensures
        s == spec_submission(*c),
{
    Submission {
        ip: c.ip,
        select: if !c.session.backend_specific.enabled {
            CommandSelect::Enable
        } else {
            match c.session.motor_config.state {
                ControlState::Position { .. } => CommandSelect::SetPosition(
                    c.session.backend_specific.encode,
                ),
                ControlState::Velocity { .. } => CommandSelect::SetVelocity(
                    c.session.backend_specific.encode,
                ),
                ControlState::Torque { .. } => CommandSelect::SetCurrent(
                    c.session.backend_specific.encode,
                ),
            }
        },
        cvp: match &c.session.input_cvp {
            Some(v) => *v,
            None => CVP::zero(),
        },
        gear_reduction: c.session.motor_config.gear_reduction,
        read_timeout_ns: c.session.backend_specific.read_timeout_ns,
    }
}

/// The completion tag of the receive half of `ip`'s cycle: the address
/// value itself.
pub fn recv_tag(ip: u32) -> (r: u64)
    ensures
        r == ip,
{
    ip as u64
}

/// The completion tag of the send half of `ip`'s cycle: the address value
/// with the send bit, bit 32, set.
pub fn send_tag(ip: u32) -> (r: u64)
    ensures
        r == ip + 0x1_0000_0000,
{
    ip as u64 + 0x1_0000_0000
}

/// The session identity a completion tag addresses: its low 32 bits.
pub fn tag_ip(tag: u64) -> (r: u32)
    ensures
        r == tag % 0x1_0000_0000,
{
    (tag % 0x1_0000_0000) as u32
}

/// Whether a completion tag belongs to the send half of a cycle.
pub fn tag_is_send(tag: u64) -> (r: bool)
    ensures
        r == ((tag / 0x1_0000_0000) % 2 == 1),
{
    (tag / 0x1_0000_0000) % 2 == 1
}

/// A front end's per-motor connection settings for this transport: the
/// address under edit, the parsed address, the encoding, and whether the
/// session was added.
#[derive(Debug)]
pub struct MotorUiConfig {
    pub ip_buf_storage: String,
    pub ip: Option<u32>,
    pub encoding: FourierEncodeKind,
    pub added: bool,
}

impl Default for MotorUiConfig {
    fn default() -> (r: MotorUiConfig)
        ensures
            r.ip_buf_storage@.len() == 0,
            r.ip is None,
            r.encoding == FourierEncodeKind::Binary,
            !r.added,
    {
        MotorUiConfig {
            ip_buf_storage: String::new(),
            ip: None,
            encoding: FourierEncodeKind::Binary,
            added: false,
        }
    }
}

impl MotorUiConfig {
    /// The configured device address, as its 32-bit value.
    pub fn ip_addr(&self) -> (r: Option<u32>)
        ensures
            r == self.ip,
    {
        self.ip
    }
}

} // verus!
