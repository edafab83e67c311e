use vstd::prelude::*;
use crate::motor_backend::{spec_update_ends, spec_updated_input, spec_waveform_set, Backend};
use crate::motor_ctx::{MotorConfig, CVP};
use crate::motor_input::MotorInput;

verus! {

/// The value of 128 to the `k`.
pub open spec fn spec_pow128(k: nat) -> int
    decreases k,
{
    if k == 0 {
        1
    } else {
        128 * spec_pow128((k - 1) as nat)
    }
}

/// The base-128 little-endian bytes of `n`, each non-final byte with its
/// continuation bit set: the protobuf varint encoding.
pub open spec fn spec_varint(n: u64) -> Seq<u8>
    decreases n,
{
    if n < 0x80 {
        seq![n as u8]
    } else {
        seq![((n % 0x80) + 0x80) as u8] + spec_varint(n / 0x80)
    }
}

/// Reads a varint whose first digit weighs `spec_pow128(k)`: the raw value
/// read and the position after it, or nothing on a truncated or overlong
/// (more than ten bytes) encoding.
pub open spec fn spec_varint_decode(b: Seq<u8>, pos: int, k: nat) -> Option<(int, int)>
    decreases b.len() - pos,
{
    if pos < 0 || pos >= b.len() || k >= 10 {
        None
    } else {
        let byte = b[pos] as int;
        if byte < 0x80 {
            Some((byte * spec_pow128(k), pos + 1))
        } else {
            match spec_varint_decode(b, pos + 1, (k + 1) as nat) {
                Some((rest, end)) => Some(((byte - 0x80) * spec_pow128(k) + rest, end)),
                None => None,
            }
        }
    }
}

/// A decoded varint ends after where it began, and its raw value is bounded
/// by the weight of the digits it can still hold.
pub proof fn lemma_varint_decode_bounds(b: Seq<u8>, pos: int, k: nat)
    requires
        k <= 10,
    ensures
        match spec_varint_decode(b, pos, k) {
            Some((raw, end)) => {
                &&& pos < end <= b.len()
                &&& 0 <= raw <= spec_pow128(10) - spec_pow128(k)
            },
            None => true,
        },
    decreases b.len() - pos,
{
    lemma_pow128_increases(k, 10);
    if 0 <= pos < b.len() && k < 10 {
        let byte = b[pos] as int;
        if byte < 0x80 {
            lemma_pow128_increases((k + 1) as nat, 10);
            assert(byte * spec_pow128(k) <= 127 * spec_pow128(k)) by (nonlinear_arith)
                requires
                    0 <= byte <= 127,
                    spec_pow128(k) > 0,
            ;
            assert(128 * spec_pow128(k) == spec_pow128((k + 1) as nat));
            assert(byte * spec_pow128(k) >= 0) by (nonlinear_arith)
                requires
                    byte >= 0,
                    spec_pow128(k) > 0,
            ;
        } else {
            lemma_varint_decode_bounds(b, pos + 1, (k + 1) as nat);
            if spec_varint_decode(b, pos + 1, (k + 1) as nat) is Some {
                let low = byte - 0x80;
                assert(0 <= low * spec_pow128(k) <= 127 * spec_pow128(k)) by (nonlinear_arith)
                    requires
                        0 <= low <= 127,
                        spec_pow128(k) > 0,
                ;
                assert(128 * spec_pow128(k) == spec_pow128((k + 1) as nat));
            }
        }
    }
}

/// Powers of 128 are positive.
pub proof fn lemma_pow128_pos(k: nat)
    ensures
        spec_pow128(k) > 0,
    decreases k,
{
    if k > 0 {
        lemma_pow128_pos((k - 1) as nat);
    }
}

/// Powers of 128 are positive and increase with the exponent.
pub proof fn lemma_pow128_increases(j: nat, k: nat)
    requires
        j <= k,
    ensures
        0 < spec_pow128(j) <= spec_pow128(k),
    decreases k - j,
{
    lemma_pow128_pos(j);
    if j < k {
        lemma_pow128_increases(j, (k - 1) as nat);
        lemma_pow128_pos((k - 1) as nat);
        assert(spec_pow128(k) == 128 * spec_pow128((k - 1) as nat));
    }
}

/// Computes 128 to the `k` for the exponents a ten-byte varint can use.
fn pow128(k: u32) -> (r: u128)
    requires
        k <= 9,
    ensures
        r == spec_pow128(k as nat),
        r <= 0x8000_0000_0000_0000,
{
    proof {
        reveal_with_fuel(spec_pow128, 11);
    }
    match k {
        0 => 1,
        1 => 0x80,
        2 => 0x4000,
        3 => 0x20_0000,
        4 => 0x1000_0000,
        5 => 0x8_0000_0000,
        6 => 0x400_0000_0000,
        7 => 0x2_0000_0000_0000,
        8 => 0x100_0000_0000_0000,
        _ => 0x8000_0000_0000_0000,
    }
}

/// Reads a varint whose next digit weighs 128 to the `k`, mirroring
/// `spec_varint_decode` exactly.
fn read_varint_at(b: &[u8], pos: usize, k: u32) -> (r: Option<(u128, usize)>)
    requires
        k <= 10,
    ensures
        match spec_varint_decode(b@, pos as int, k as nat) {
            Some((raw, end)) => r == Some((raw as u128, end as usize)) && 0 <= raw <= u128::MAX,
            None => r is None,
        },
    decreases b@.len() - pos,
{
    if pos >= b.len() || k >= 10 {
        return None;
    }
    proof {
        lemma_varint_decode_bounds(b@, pos as int, k as nat);
        lemma_pow128_increases(k as nat, 10);
    }
    let byte = b[pos];
    let m = pow128(k);
    if byte < 0x80 {
        proof {
            assert((byte as int) * spec_pow128(k as nat) <= 127 * spec_pow128(k as nat))
                by (nonlinear_arith)
                requires
                    0 <= byte < 0x80,
                    spec_pow128(k as nat) > 0,
            ;
        }
        Some(((byte as u128) * m, pos + 1))
    } else {
        match read_varint_at(b, pos + 1, k + 1) {
            Some((rest, end)) => {
                proof {
                    lemma_varint_decode_bounds(b@, pos as int + 1, (k + 1) as nat);
                    assert(0 <= ((byte - 0x80) as int) * spec_pow128(k as nat) <= 127
                        * spec_pow128(k as nat)) by (nonlinear_arith)
                        requires
                            0x80 <= byte <= 0xFF,
                            spec_pow128(k as nat) > 0,
                    ;
                    lemma_pow128_increases((k + 1) as nat, 10);
                    assert(127 * spec_pow128(k as nat) == spec_pow128((k + 1) as nat)
                        - spec_pow128(k as nat));
                    reveal_with_fuel(spec_pow128, 11);
                    assert(spec_pow128(10) == 0x40_0000_0000_0000_0000);
                }
                Some((((byte - 0x80) as u128) * m + rest, end))
            },
            None => None,
        }
    }
}

/// Reads one varint at `pos`, rejecting truncated or overlong encodings and
/// raw values that do not fit 64 bits.
pub fn read_varint(b: &[u8], pos: usize) -> (r: Option<(u64, usize)>)
    ensures
        match spec_varint_decode(b@, pos as int, 0) {
            Some((raw, end)) => if raw <= u64::MAX {
                r == Some((raw as u64, end as usize))
            } else {
                r is None
            },
            None => r is None,
        },
{
    match read_varint_at(b, pos, 0) {
        Some((raw, end)) => {
            if raw <= 0xFFFF_FFFF_FFFF_FFFF {
                Some((raw as u64, end))
            } else {
                None
            }
        },
        None => None,
    }
}

/// Appends the varint encoding of `n`.
pub fn write_varint(out: &mut Vec<u8>, n: u64)
    ensures
        final(out)@ == old(out)@ + spec_varint(n),
    decreases n,
{
    if n < 0x80 {
        out.push(n as u8);
        proof {
            assert(final(out)@ =~= old(out)@ + spec_varint(n));
        }
    } else {
        out.push((n % 0x80 + 0x80) as u8);
        write_varint(out, n / 0x80);
        proof {
            assert(final(out)@ =~= old(out)@ + spec_varint(n));
        }
    }
}

/// The unsigned 64-bit pattern of a signed value.
pub open spec fn spec_unsigned64(v: int) -> int {
    if v >= 0 {
        v
    } else {
        v + 0x1_0000_0000_0000_0000
    }
}

/// Two's-complement reading of an unsigned 64-bit value.
pub open spec fn spec_signed64(v: int) -> int {
    if v < 0x8000_0000_0000_0000 {
        v
    } else {
        v - 0x1_0000_0000_0000_0000
    }
}

/// The wire tag of the outbound velocity command: field 1, varint.
pub const MOTOR_CMD_VELOCITY_TAG: u8 = 0x08;

/// Encodes the outbound serial frame: a motor-driver message whose one field
/// is the commanded velocity, in wire units.
pub fn encode_motor_cmd(velocity: i64) -> (out: Vec<u8>)
    ensures
        out@ == seq![MOTOR_CMD_VELOCITY_TAG] + spec_varint(spec_unsigned64(velocity as int) as u64),
{
    let u: u64 = if velocity >= 0 {
        velocity as u64
    } else {
        ((velocity as i128) + 0x1_0000_0000_0000_0000i128) as u64
    };
    let mut out: Vec<u8> = Vec::new();
    out.push(MOTOR_CMD_VELOCITY_TAG);
    write_varint(&mut out, u);
    proof {
        assert(out@ =~= seq![MOTOR_CMD_VELOCITY_TAG] + spec_varint(u));
    }
    out
}

/// The optional fields of the inbound serial frame, raw wire values: field 1
/// the encoder position, field 2 the encoder velocity, field 3 the current.
#[derive(Clone, Copy, PartialEq, Eq, Structural, Debug)]
pub struct MotorDriverResponse {
    pub encoder_position: Option<u64>,
    pub encoder_velocity: Option<u64>,
    pub current: Option<u64>,
}

/// Folds the varint fields of an inbound frame from `pos` over the fields
/// already seen: every field must be a varint, later occurrences win, and
/// unknown field numbers are skipped.
pub open spec fn spec_resp_decode(
    b: Seq<u8>,
    pos: int,
    acc: (Option<u64>, Option<u64>, Option<u64>),
) -> Option<(Option<u64>, Option<u64>, Option<u64>)>
    decreases b.len() - pos,
{
    if pos == b.len() {
        Some(acc)
    } else {
        match spec_varint_decode(b, pos, 0) {
            None => None,
            Some((tag, p1)) => if tag % 8 != 0 || tag > u64::MAX {
                None
            } else {
                match spec_varint_decode(b, p1, 0) {
                    None => None,
                    Some((val, p2)) => if val > u64::MAX || !(pos < p2 <= b.len()) {
                        None
                    } else {
                        let field = tag / 8;
                        let acc2 = if field == 1 {
                            (Some(val as u64), acc.1, acc.2)
                        } else if field == 2 {
                            (acc.0, Some(val as u64), acc.2)
                        } else if field == 3 {
                            (acc.0, acc.1, Some(val as u64))
                        } else {
                            acc
                        };
                        spec_resp_decode(b, p2, acc2)
                    },
                }
            },
        }
    }
}

/// The decoded inbound frame as a triple of its optional fields.
pub open spec fn spec_resp_fields(r: MotorDriverResponse) -> (
    Option<u64>,
    Option<u64>,
    Option<u64>,
) {
    (r.encoder_position, r.encoder_velocity, r.current)
}

/// Decodes an inbound serial frame.  Fields not on the wire stay `None`;
/// a frame that is not a sequence of varint fields is rejected.
pub fn decode_response(b: &[u8]) -> (r: Option<MotorDriverResponse>)
    ensures
        match spec_resp_decode(b@, 0, (None, None, None)) {
            Some(fields) => match r {
                Some(resp) => spec_resp_fields(resp) == fields,
                None => false,
            },
            None => r is None,
        },
{
    let mut pos: usize = 0;
    let mut acc = MotorDriverResponse {
        encoder_position: None,
        encoder_velocity: None,
        current: None,
    };
    while pos < b.len()
        invariant
            pos <= b@.len(),
            spec_resp_decode(b@, 0, (None, None, None)) == spec_resp_decode(
                b@,
                pos as int,
                spec_resp_fields(acc),
            ),
        decreases b@.len() - pos,
    {
        let (tag, p1) = match read_varint(b, pos) {
            Some(t) => t,
            None => {
                return None;
            },
        };
        proof {
            lemma_varint_decode_bounds(b@, pos as int, 0);
        }
        if tag % 8 != 0 {
            return None;
        }
        let (val, p2) = match read_varint(b, p1) {
            Some(v) => v,
            None => {
                return None;
            },
        };
        proof {
            lemma_varint_decode_bounds(b@, p1 as int, 0);
        }
        let field = tag / 8;
        if field == 1 {
            acc.encoder_position = Some(val);
        } else if field == 2 {
            acc.encoder_velocity = Some(val);
        } else if field == 3 {
            acc.current = Some(val);
        }
        pos = p2;
    }
    Some(acc)
}

/// Protocol-specific half of a serial session: only the removal mark, since
/// this transport has no handshake and reads are multishot.
#[derive(Clone, Copy, PartialEq, Eq, Structural, Debug)]
pub struct ProtobufBackend {
    pub remove_next_recv: bool,
}

/// Commands a collaborator sends for one serial session, keyed by device
/// path.  `Add` carries the numeric id derived from the opened device's file
/// descriptor.
#[derive(Debug)]
pub enum ProtobufCmd {
    Add(MotorConfig, i32),
    Remove,
    SetWaveForm(MotorInput),
    StopWaveform,
    Shutdown,
}

/// Events a serial session reports back, timestamped in nanosecond ticks.
#[derive(Debug)]
pub enum ProtobufResponse {
    OutputCVP(CVP, u64),
    ControllerAdjustedCVP(CVP, u64),
    Error(i32),
    Timeout,
    DuplicateConnections,
    EndWaveform,
}

/// The next outbound serial frame: the session's commanded velocity pattern,
/// to be rounded to wire units and encoded as the velocity command.
#[derive(Clone, Copy, PartialEq, Eq, Structural, Debug)]
pub struct WriteSubmission {
    pub dev_id: i32,
    pub velocity: u64,
}

/// One serial session table entry.  `in_flight` counts the session's
/// outstanding written-but-unanswered frames.
pub struct ProtoConn {
    pub path: String,
    pub dev_id: i32,
    pub session: Backend<ProtobufBackend>,
    pub in_flight: u8,
}

/// What the reactor asks the caller to do after one inbound frame.
pub struct ProtoOutcome {
    /// Events to forward on the response channel, in order.
    pub responses: Vec<ProtobufResponse>,
    /// The next frame to write, if any.
    pub submit: Option<WriteSubmission>,
    /// True when a drained shutdown has emptied the table and the loop ends.
    pub finished: bool,
}

/// The session's commanded velocity pattern, zero when no input is computed.
pub open spec fn spec_proto_velocity(b: Backend<ProtobufBackend>) -> u64 {
    match b.input_cvp {
        Some(c) => c.velocity,
        None => 0,
    }
}

/// True when the table holds a session for the device id.
pub open spec fn spec_proto_has(conns: Seq<ProtoConn>, dev_id: i32) -> bool {
    exists|i: int| 0 <= i < conns.len() && conns[i].dev_id == dev_id
}

/// The index of the device id's session; meaningful only when one is held.
pub open spec fn spec_proto_index_of(conns: Seq<ProtoConn>, dev_id: i32) -> int {
    choose|i: int| 0 <= i < conns.len() && conns[i].dev_id == dev_id
}

/// True when the table holds a session under the path.
pub open spec fn spec_path_has(conns: Seq<ProtoConn>, path: Seq<char>) -> bool {
    exists|i: int| 0 <= i < conns.len() && conns[i].path@ == path
}

/// The first index whose entry is under the path.
pub open spec fn spec_path_index_of(conns: Seq<ProtoConn>, path: Seq<char>) -> int {
    choose|i: int| 0 <= i < conns.len() && conns[i].path@ == path
}

proof fn lemma_proto_index_of_unique(conns: Seq<ProtoConn>, dev_id: i32, i: int)
    requires
        forall|p: int, q: int| 0 <= p < q < conns.len() ==> conns[p].dev_id != conns[q].dev_id,
        0 <= i < conns.len(),
        conns[i].dev_id == dev_id,
    ensures
        spec_proto_index_of(conns, dev_id) == i,
{
    assert(spec_proto_has(conns, dev_id));
    let j = spec_proto_index_of(conns, dev_id);
    assert(0 <= j < conns.len() && conns[j].dev_id == dev_id);
    if j < i {
        assert(conns[j].dev_id != conns[i].dev_id);
    } else if j > i {
        assert(conns[i].dev_id != conns[j].dev_id);
    }
}

/// The entry as a removal mark leaves it.
pub open spec fn spec_proto_marked(c: ProtoConn) -> ProtoConn {
    ProtoConn {
        session: Backend {
            backend_specific: ProtobufBackend { remove_next_recv: true },
            ..c.session
        },
        ..c
    }
}

/// The reactor state of the serial protocol family: its exclusively owned
/// session table and the shutdown mark.
pub struct ProtobufReactor {
    pub connections: Vec<ProtoConn>,
    pub request_shutdown: bool,
}

impl ProtobufReactor {
    /// Table well-formedness: device ids are unique, and no session ever has
    /// more than one frame outstanding.
    pub open spec fn wf(self) -> bool {
        &&& forall|i: int, j: int|
            0 <= i < j < self.connections@.len() ==> self.connections@[i].dev_id
                != self.connections@[j].dev_id
        &&& forall|i: int|
            0 <= i < self.connections@.len() ==> #[trigger] self.connections@[i].in_flight <= 1
    }

    /// An empty reactor.
    pub fn new() -> (r: ProtobufReactor)
        ensures
            r.wf(),
            r.connections@.len() == 0,
            !r.request_shutdown,
    {
        ProtobufReactor { connections: Vec::new(), request_shutdown: false }
    }

    /// Looks a session up by device id.
    fn find_id(&self, dev_id: i32) -> (r: Option<usize>)
        ensures
            match r {
                Some(i) => i < self.connections@.len() && self.connections@[i as int].dev_id
                    == dev_id,
                None => !spec_proto_has(self.connections@, dev_id),
            },
    {
        let mut i: usize = 0;
        while i < self.connections.len()
            invariant
                i <= self.connections@.len(),
                forall|j: int| 0 <= j < i ==> self.connections@[j].dev_id != dev_id,
            decreases self.connections@.len() - i,
        {
            if self.connections[i].dev_id == dev_id {
                return Some(i);
            }
            i = i + 1;
        }
        None
    }

    /// Looks the first session up by path.
    fn find_path(&self, path: &String) -> (r: Option<usize>)
        ensures
            match r {
                Some(i) => i < self.connections@.len() && self.connections@[i as int].path@
                    == path@,
                None => !spec_path_has(self.connections@, path@),
            },
    {
        let mut i: usize = 0;
        while i < self.connections.len()
            invariant
                i <= self.connections@.len(),
                forall|j: int| 0 <= j < i ==> self.connections@[j].path@ != path@,
            decreases self.connections@.len() - i,
        {
            if self.connections[i].path.eq(path) {
                return Some(i);
            }
            i = i + 1;
        }
        None
    }

    /// The path a device id's session was added under, for pairing events
    /// with their session on the response channel.
    pub fn path_of(&self, dev_id: i32) -> (r: Option<String>)
        requires
            self.wf(),
        ensures
            match r {
                Some(p) => {
                    &&& spec_proto_has(self.connections@, dev_id)
                    &&& p@ == self.connections@[spec_proto_index_of(
                        self.connections@,
                        dev_id,
                    )].path@
                },
                None => !spec_proto_has(self.connections@, dev_id),
            },
    {
        match self.find_id(dev_id) {
            Some(i) => {
                proof {
                    lemma_proto_index_of_unique(self.connections@, dev_id, i as int);
                }
                Some(self.connections[i].path.clone())
            },
            None => None,
        }
    }

    /// For any session of a well-formed reactor, the number of outstanding
    /// written-but-unanswered frames is at most one.
    pub proof fn lemma_outstanding_at_most_one(self, i: int)
        requires
            self.wf(),
            0 <= i < self.connections@.len(),
        ensures
            self.connections@[i].in_flight <= 1,
    {
    }

    /// Applies one collaborator command, addressed by device path.  `Add`
    /// for a device id already in the table reports `DuplicateConnections`
    /// and leaves the prior session untouched; a fresh `Add` inserts the
    /// session and writes the initial zero-velocity frame.  `Remove` and
    /// `Shutdown` mark sessions for a graceful one-cycle drain; a marked
    /// session ignores `SetWaveForm`.
    pub fn apply_cmd(&mut self, path: String, cmd: ProtobufCmd, now_ns: u64) -> (r: (
        Option<ProtobufResponse>,
        Option<WriteSubmission>,
    ))
        requires
            old(self).wf(),
        ensures
            final(self).wf(),
            match cmd {
                ProtobufCmd::Add(config, dev_id) => {
                    if spec_proto_has(old(self).connections@, dev_id) {
                        &&& r.0 == Some(ProtobufResponse::DuplicateConnections)
                        &&& r.1 is None
                        &&& final(self).connections@ == old(self).connections@
                        &&& final(self).request_shutdown == old(self).request_shutdown
                    } else {
                        let n = old(self).connections@.len() as int;
                        &&& r.0 is None
                        &&& r.1 == Some(WriteSubmission { dev_id, velocity: 0u64 })
                        &&& final(self).request_shutdown == old(self).request_shutdown
                        &&& final(self).connections@.len() == n + 1
                        &&& final(self).connections@.subrange(0, n) == old(self).connections@
                        &&& {
                            let c = final(self).connections@.last();
                            &&& c.path@ == path@
                            &&& c.dev_id == dev_id
                            &&& c.in_flight == 1
                            &&& c.session.motor_config == config
                            &&& c.session.input_cvp is None
                            &&& c.session.request_input is None
                            &&& c.session.backend_specific == (ProtobufBackend {
                                remove_next_recv: false,
                            })
                        }
                    }
                },
                ProtobufCmd::Remove => {
                    &&& r.0 is None
                    &&& r.1 is None
                    &&& final(self).request_shutdown == old(self).request_shutdown
                    &&& if spec_path_has(old(self).connections@, path@) {
                        let i = spec_path_index_of(old(self).connections@, path@);
                        exists|i2: int|
                            {
                                &&& 0 <= i2 < old(self).connections@.len()
                                &&& old(self).connections@[i2].path@ == path@
                                &&& final(self).connections@ == old(self).connections@.update(
                                    i2,
                                    spec_proto_marked(old(self).connections@[i2]),
                                )
                            }
                    } else {
                        final(self).connections@ == old(self).connections@
                    }
                },
                ProtobufCmd::SetWaveForm(w) => {
                    &&& r.0 is None
                    &&& r.1 is None
                    &&& final(self).request_shutdown == old(self).request_shutdown
                    &&& if spec_path_has(old(self).connections@, path@) {
                        exists|i2: int|
                            {
                                &&& 0 <= i2 < old(self).connections@.len()
                                &&& old(self).connections@[i2].path@ == path@
                                &&& final(self).connections@.len() == old(self).connections@.len()
                                &&& (forall|j: int|
                                    0 <= j < old(self).connections@.len() && j != i2
                                        ==> final(self).connections@[j] == old(
                                        self,
                                    ).connections@[j])
                                &&& if old(
                                    self,
                                ).connections@[i2].session.backend_specific.remove_next_recv {
                                    final(self).connections@[i2] == old(self).connections@[i2]
                                } else {
                                    &&& final(self).connections@[i2].path == old(
                                        self,
                                    ).connections@[i2].path
                                    &&& final(self).connections@[i2].dev_id == old(
                                        self,
                                    ).connections@[i2].dev_id
                                    &&& final(self).connections@[i2].in_flight == old(
                                        self,
                                    ).connections@[i2].in_flight
                                    &&& spec_waveform_set(
                                        old(self).connections@[i2].session,
                                        final(self).connections@[i2].session,
                                        w,
                                        now_ns,
                                    )
                                }
                            }
                    } else {
                        final(self).connections@ == old(self).connections@
                    }
                },
                ProtobufCmd::StopWaveform => {
                    &&& r.1 is None
                    &&& final(self).request_shutdown == old(self).request_shutdown
                    &&& if spec_path_has(old(self).connections@, path@) {
                        &&& r.0 == Some(ProtobufResponse::EndWaveform)
                        &&& exists|i2: int|
                            {
                                &&& 0 <= i2 < old(self).connections@.len()
                                &&& old(self).connections@[i2].path@ == path@
                                &&& final(self).connections@ == old(self).connections@.update(
                                    i2,
                                    ProtoConn {
                                        session: Backend {
                                            input_cvp: Some(CVP::spec_zero()),
                                            request_input: None,
                                            ..old(self).connections@[i2].session
                                        },
                                        ..old(self).connections@[i2]
                                    },
                                )
                            }
                    } else {
                        &&& r.0 is None
                        &&& final(self).connections@ == old(self).connections@
                    }
                },
                ProtobufCmd::Shutdown => {
                    &&& r.0 is None
                    &&& r.1 is None
                    &&& final(self).request_shutdown
                    &&& final(self).connections@.len() == old(self).connections@.len()
                    &&& forall|j: int|
                        0 <= j < old(self).connections@.len()
                            ==> #[trigger] final(self).connections@[j] == spec_proto_marked(
                            old(self).connections@[j],
                        )
                },
            },
    {
        match cmd {
            ProtobufCmd::Add(config, dev_id) => {
                if let Some(_i) = self.find_id(dev_id) {
                    return (Some(ProtobufResponse::DuplicateConnections), None);
                }
                let backend = ProtobufBackend { remove_next_recv: false };
                let conn = ProtoConn {
                    path,
                    dev_id,
                    session: Backend::new(config, backend, None, now_ns),
                    in_flight: 1,
                };
                self.connections.push(conn);
                proof {
                    assert(final(self).connections@.subrange(
                        0,
                        old(self).connections@.len() as int,
                    ) =~= old(self).connections@);
                }
                (None, Some(WriteSubmission { dev_id, velocity: 0 }))
            }
            ProtobufCmd::Remove => {
                if let Some(i) = self.find_path(&path) {
                    let c = &mut self.connections[i];
                    c.session.backend_specific.remove_next_recv = true;
                }
                (None, None)
            }
            ProtobufCmd::SetWaveForm(w) => {
                if let Some(i) = self.find_path(&path) {
                    let c = &mut self.connections[i];
                    if !c.session.backend_specific.remove_next_recv {
                        c.session.set_waveform(w, now_ns);
                    }
                }
                (None, None)
            }
            ProtobufCmd::StopWaveform => {
                if let Some(i) = self.find_path(&path) {
                    let c = &mut self.connections[i];
                    c.session.stop_waveform();
                    (Some(ProtobufResponse::EndWaveform), None)
                } else {
                    (None, None)
                }
            }
            ProtobufCmd::Shutdown => {
                self.request_shutdown = true;
                let mut i: usize = 0;
                while i < self.connections.len()
                    invariant
                        i <= self.connections@.len(),
                        self.connections@.len() == old(self).connections@.len(),
                        forall|j: int|
                            0 <= j < i ==> #[trigger] self.connections@[j] == spec_proto_marked(
                                old(self).connections@[j],
                            ),
                        forall|j: int|
                            i <= j < self.connections@.len()
                                ==> #[trigger] self.connections@[j]
                                == old(self).connections@[j],
                        self.request_shutdown,
                    decreases self.connections@.len() - i,
                {
                    let c = &mut self.connections[i];
                    c.session.backend_specific.remove_next_recv = true;
                    i = i + 1;
                }
                (None, None)
            }
        }
    }

    /// Handles one inbound frame event for a device.  An unknown id changes
    /// nothing.  A session marked for removal is dropped once its in-flight
    /// cycle yields any frame event, finishing a requested shutdown when the
    /// table empties.  An undecodable frame otherwise changes nothing; on
    /// telemetry the waveform input is recomputed, the events are reported,
    /// and the next velocity frame is written at once, keeping exactly one
    /// frame outstanding.
    pub fn on_frame(&mut self, dev_id: i32, parsed: Option<CVP>, now_ns: u64) -> (r: ProtoOutcome)
        requires
            old(self).wf(),
        ensures
            final(self).wf(),
            final(self).request_shutdown == old(self).request_shutdown,
            if !spec_proto_has(old(self).connections@, dev_id) {
                &&& final(self).connections@ == old(self).connections@
                &&& r.responses@ == Seq::<ProtobufResponse>::empty()
                &&& r.submit is None
                &&& !r.finished
            } else {
                let i = spec_proto_index_of(old(self).connections@, dev_id);
                let c = old(self).connections@[i];
                if c.session.backend_specific.remove_next_recv {
                    &&& final(self).connections@ == old(self).connections@.remove(i)
                    &&& r.responses@ == Seq::<ProtobufResponse>::empty()
                    &&& r.submit is None
                    &&& r.finished == (old(self).request_shutdown && old(
                        self,
                    ).connections@.len() == 1)
                } else if parsed is None {
                    &&& final(self).connections@ == old(self).connections@
                    &&& r.responses@ == Seq::<ProtobufResponse>::empty()
                    &&& r.submit is None
                    &&& !r.finished
                } else {
                    let cvp = parsed.unwrap();
                    let s1 = spec_updated_input(c.session, now_ns);
                    let s2 = if s1.motor_config.controller is Some {
                        Backend { input_cvp: Some(spec_proto_input_or_zero(s1)), ..s1 }
                    } else {
                        s1
                    };
                    let c2 = ProtoConn { session: s2, in_flight: 1, ..c };
                    &&& final(self).connections@ == old(self).connections@.update(i, c2)
                    &&& r.responses@ == spec_proto_responses(c.session, cvp, now_ns)
                    &&& r.submit == Some(
                        WriteSubmission { dev_id, velocity: spec_proto_velocity(s2) },
                    )
                    &&& !r.finished
                }
            },
    {
        let idx = match self.find_id(dev_id) {
            Some(i) => i,
            None => {
                return ProtoOutcome { responses: Vec::new(), submit: None, finished: false };
            },
        };
        proof {
            lemma_proto_index_of_unique(self.connections@, dev_id, idx as int);
        }
        if self.connections[idx].session.backend_specific.remove_next_recv {
            self.connections.remove(idx);
            let finished = self.request_shutdown && self.connections.len() == 0;
            return ProtoOutcome { responses: Vec::new(), submit: None, finished };
        }
        let cvp = match parsed {
            Some(c) => c,
            None => {
                return ProtoOutcome { responses: Vec::new(), submit: None, finished: false };
            },
        };
        let ghost s0 = self.connections@[idx as int].session;
        let mut responses: Vec<ProtobufResponse> = Vec::new();
        let c = &mut self.connections[idx];
        let end = c.session.update_input(now_ns);
        if end {
            responses.push(ProtobufResponse::EndWaveform);
        }
        if c.session.motor_config.controller.is_some() {
            let input = match &c.session.input_cvp {
                Some(v) => *v,
                None => CVP::zero(),
            };
            let state = c.session.motor_config.state;
            let adjusted = match &mut c.session.motor_config.controller {
                Some(ctrl) => ctrl.update(input, cvp, &state),
                None => input,
            };
            responses.push(ProtobufResponse::ControllerAdjustedCVP(adjusted, now_ns));
            c.session.input_cvp = Some(adjusted);
        } else {
            responses.push(ProtobufResponse::OutputCVP(cvp, now_ns));
        }
        c.in_flight = 1;
        let velocity = match &self.connections[idx].session.input_cvp {
            Some(v) => v.velocity,
            None => 0,
        };
        proof {
            assert(responses@ =~= spec_proto_responses(s0, cvp, now_ns));
        }
        ProtoOutcome {
            responses,
            submit: Some(WriteSubmission { dev_id, velocity }),
            finished: false,
        }
    }
}

/// The session's commanded triple, idle when none is computed.
pub open spec fn spec_proto_input_or_zero(b: Backend<ProtobufBackend>) -> CVP {
    match b.input_cvp {
        Some(c) => c,
        None => CVP::spec_zero(),
    }
}

/// The events one telemetry frame reports, in order: the end of a just
/// completed waveform, then either the controller adjustment or the measured
/// output.
pub open spec fn spec_proto_responses(
    s: Backend<ProtobufBackend>,
    cvp: CVP,
    now_ns: u64,
) -> Seq<ProtobufResponse> {
    let s1 = spec_updated_input(s, now_ns);
    let head: Seq<ProtobufResponse> = if spec_update_ends(s, now_ns) {
        seq![ProtobufResponse::EndWaveform]
    } else {
        Seq::empty()
    };
    let main: Seq<ProtobufResponse> = if s1.motor_config.controller is Some {
        seq![ProtobufResponse::ControllerAdjustedCVP(spec_proto_input_or_zero(s1), now_ns)]
    } else {
        seq![ProtobufResponse::OutputCVP(cvp, now_ns)]
    };
    head + main
}

/// Serial line speeds a device can be opened at; the caller maps each to
/// the operating system's constant.
#[derive(PartialEq, Eq, Structural, Clone, Copy, Debug)]
pub enum BaudRate {
    B0,
    B50,
    B75,
    B110,
    B134,
    B150,
    B200,
    B300,
    B600,
    B1200,
    B1800,
    B2400,
    B4800,
    B9600,
    B19200,
    B38400,
    B57600,
    B921600,
    B1000000,
    B1152000,
    B1500000,
    B2000000,
    B2500000,
    B3000000,
    B3500000,
    B4000000,
}

/// A front end's per-motor connection settings for this transport: the
/// device path under edit, the validated path, the chosen line speed, and
/// whether the session was added.
#[derive(Debug)]
pub struct MotorUiConfig {
    pub path_buf_storage: String,
    pub path: Option<String>,
    pub baud_rate: Option<BaudRate>,
    pub added: bool,
}

impl Default for MotorUiConfig {
    fn default() -> (r: MotorUiConfig)
        ensures
            r.path_buf_storage@.len() == 0,
            r.path is None,
            r.baud_rate is None,
            !r.added,
    {
        MotorUiConfig {
            path_buf_storage: String::new(),
            path: None,
            baud_rate: None,
            added: false,
        }
    }
}

impl MotorUiConfig {
    /// The configured device path.
    pub fn path(&self) -> (r: Option<&str>)
        ensures
            match r {
                Some(p) => self.path is Some && p@ == self.path.unwrap()@,
                None => self.path is None,
            },
    {
        match &self.path {
            Some(p) => Some(p.as_str()),
            None => None,
        }
    }
}

/// A value below the `k`th power of 128 encodes in at most `k` digits.
proof fn lemma_varint_len_bound(n: u64, k: nat)
    requires
        k >= 1,
        n < spec_pow128(k),
    ensures
        1 <= spec_varint(n).len() <= k,
    decreases n,
{
    if n >= 0x80 {
        lemma_pow128_pos((k - 1) as nat);
        assert(n / 0x80 < spec_pow128((k - 1) as nat)) by (nonlinear_arith)
            requires
                n < 128 * spec_pow128((k - 1) as nat),
                spec_pow128((k - 1) as nat) > 0,
        ;
        lemma_varint_len_bound(n / 0x80, (k - 1) as nat);
    }
}

/// Every 64-bit value encodes in at most ten varint digits.
pub proof fn lemma_varint_len(n: u64)
    ensures
        1 <= spec_varint(n).len() <= 10,
{
    reveal_with_fuel(spec_pow128, 11);
    assert(spec_pow128(10) == 0x40_0000_0000_0000_0000);
    lemma_varint_len_bound(n, 10);
}

/// Decoding bytes that begin with the encoding of `n` yields `n`, scaled by
/// the weight of the digit the decoder is at, and stops right after it: the
/// encoder and the decoder agree.
pub proof fn lemma_varint_round_trip_at(n: u64, b: Seq<u8>, pos: int, k: nat)
    requires
        0 <= pos,
        pos + spec_varint(n).len() <= b.len(),
        b.subrange(pos, pos + spec_varint(n).len()) == spec_varint(n),
        k + spec_varint(n).len() <= 10,
    ensures
        spec_varint_decode(b, pos, k) == Some((n * spec_pow128(k), pos + spec_varint(n).len())),
    decreases n,
{
    let len = spec_varint(n).len() as int;
    assert(b[pos] == spec_varint(n)[0]) by {
        assert(b.subrange(pos, pos + len)[0] == b[pos]);
    }
    if n < 0x80 {
        assert(spec_varint(n) == seq![n as u8]);
        assert(b[pos] == n as u8);
    } else {
        let m = n / 0x80;
        let tail = spec_varint(m);
        assert(spec_varint(n) == seq![((n % 0x80) + 0x80) as u8] + tail);
        assert(b[pos] as int == (n % 0x80) + 0x80);
        assert(b.subrange(pos + 1, pos + len) =~= tail) by {
            assert forall|i: int| 0 <= i < len - 1 implies b.subrange(pos + 1, pos + len)[i]
                == tail[i] by {
                assert(b.subrange(pos, pos + len)[i + 1] == b[pos + 1 + i]);
            }
        }
        lemma_varint_round_trip_at(m, b, pos + 1, (k + 1) as nat);
        vstd::arithmetic::div_mod::lemma_fundamental_div_mod(n as int, 0x80);
        assert(spec_pow128((k + 1) as nat) == 128 * spec_pow128(k));
        assert((n % 0x80) * spec_pow128(k) + m * (128 * spec_pow128(k)) == n * spec_pow128(k))
            by (nonlinear_arith)
            requires
                n == 0x80 * m + n % 0x80,
        ;
    }
}

/// Round trip of the varint codec: what `write_varint` appends, `read_varint`
/// reads back as the same value.
pub proof fn lemma_varint_round_trip(n: u64)
    ensures
        spec_varint_decode(spec_varint(n), 0, 0) == Some((n as int, spec_varint(n).len() as int)),
{
    lemma_varint_len(n);
    assert(spec_varint(n).subrange(0, spec_varint(n).len() as int) =~= spec_varint(n));
    lemma_varint_round_trip_at(n, spec_varint(n), 0, 0);
}

} // verus!
