use motor_core::motor_ctx::{ControlState, MotorConfig, CVP};
use motor_core::motor_input::MotorInput;
use motor_core::protobuf::{
    decode_response, encode_motor_cmd, read_varint, ProtobufCmd, ProtobufReactor,
    ProtobufResponse,
};

fn config() -> MotorConfig {
    MotorConfig {
        gear_reduction: 1.0f64.to_bits(),
        controller: None,
        state: ControlState::Velocity { show_position: false, show_torque: false },
    }
}

fn varint(mut n: u64) -> Vec<u8> {
    let mut out = Vec::new();
    loop {
        if n < 0x80 {
            out.push(n as u8);
            return out;
        }
        out.push((n % 0x80 + 0x80) as u8);
        n /= 0x80;
    }
}

#[test]
fn varint_round_trips() {
    for n in [0u64, 1, 127, 128, 300, 16383, 16384, u64::MAX] {
        let b = varint(n);
        assert_eq!(read_varint(&b, 0), Some((n, b.len())), "value {n}");
    }
}

#[test]
fn varint_rejects_truncation() {
    assert_eq!(read_varint(&[0x80], 0), None);
    assert_eq!(read_varint(&[], 0), None);
}

#[test]
fn varint_rejects_overflow() {
    // Eleven continuation digits never fit a 64-bit value.
    let b = vec![0x80, 0x80, 0x80, 0x80, 0x80, 0x80, 0x80, 0x80, 0x80, 0x80, 0x01];
    assert_eq!(read_varint(&b, 0), None);
}

#[test]
fn encode_velocity_frames() {
    assert_eq!(encode_motor_cmd(0), vec![0x08, 0x00]);
    assert_eq!(encode_motor_cmd(150), vec![0x08, 0x96, 0x01]);
    // Negative velocities carry their two's-complement 64-bit pattern.
    assert_eq!(
        encode_motor_cmd(-1),
        vec![0x08, 0xFF, 0xFF, 0xFF, 0xFF, 0xFF, 0xFF, 0xFF, 0xFF, 0xFF, 0x01]
    );
}

#[test]
fn decode_response_fields() {
    // Field 1 = 5, field 2 = 300, field 3 = 7.
    let mut b = vec![0x08, 0x05, 0x10];
    b.extend_from_slice(&varint(300));
    b.extend_from_slice(&[0x18, 0x07]);
    let r = decode_response(&b).unwrap();
    assert_eq!(r.encoder_position, Some(5));
    assert_eq!(r.encoder_velocity, Some(300));
    assert_eq!(r.current, Some(7));
}

#[test]
fn decode_response_missing_fields_stay_none() {
    let b = vec![0x10, 0x2A];
    let r = decode_response(&b).unwrap();
    assert_eq!(r.encoder_position, None);
    assert_eq!(r.encoder_velocity, Some(42));
    assert_eq!(r.current, None);
    let empty = decode_response(&[]).unwrap();
    assert_eq!(empty.encoder_position, None);
}

#[test]
fn decode_response_skips_unknown_fields() {
    let b = vec![0x20, 0x63, 0x08, 0x01];
    let r = decode_response(&b).unwrap();
    assert_eq!(r.encoder_position, Some(1));
}

#[test]
fn decode_response_rejects_non_varint_wire_type() {
    // Field 1 with the length-delimited wire type.
    assert_eq!(decode_response(&[0x0A, 0x01, 0x00]), None);
}

#[test]
fn decode_response_rejects_truncation() {
    assert_eq!(decode_response(&[0x08]), None);
    assert_eq!(decode_response(&[0x08, 0x80]), None);
}

const DEV: i32 = 7;

#[test]
fn add_writes_initial_zero_velocity() {
    let mut r = ProtobufReactor::new();
    let (resp, sub) = r.apply_cmd("/dev/ttyUSB0".to_string(), ProtobufCmd::Add(config(), DEV), 0);
    assert!(resp.is_none());
    let sub = sub.unwrap();
    assert_eq!(sub.dev_id, DEV);
    assert_eq!(sub.velocity, 0);
    assert_eq!(r.path_of(DEV).unwrap(), "/dev/ttyUSB0");
}

#[test]
fn duplicate_device_reports_and_keeps_session() {
    let mut r = ProtobufReactor::new();
    r.apply_cmd("/dev/a".to_string(), ProtobufCmd::Add(config(), DEV), 0);
    r.apply_cmd(
        "/dev/a".to_string(),
        ProtobufCmd::SetWaveForm(MotorInput::Constant(3.0f64.to_bits())),
        1,
    );
    let (resp, sub) = r.apply_cmd("/dev/b".to_string(), ProtobufCmd::Add(config(), DEV), 2);
    assert!(matches!(resp, Some(ProtobufResponse::DuplicateConnections)));
    assert!(sub.is_none());
    assert_eq!(r.connections.len(), 1);
    assert_eq!(r.path_of(DEV).unwrap(), "/dev/a");
    assert_eq!(
        r.connections[0].session.input_cvp,
        Some(CVP { current: 0, position: 0, velocity: 3.0f64.to_bits() })
    );
}

#[test]
fn frame_reports_output_and_writes_velocity() {
    let mut r = ProtobufReactor::new();
    r.apply_cmd("/dev/a".to_string(), ProtobufCmd::Add(config(), DEV), 0);
    r.apply_cmd(
        "/dev/a".to_string(),
        ProtobufCmd::SetWaveForm(MotorInput::Constant(5.0f64.to_bits())),
        1,
    );
    let cvp = CVP { current: 0, position: 1.0f64.to_bits(), velocity: 2.0f64.to_bits() };
    let out = r.on_frame(DEV, Some(cvp), 2);
    assert_eq!(out.responses.len(), 1);
    match &out.responses[0] {
        ProtobufResponse::OutputCVP(c, t) => {
            assert_eq!(*c, cvp);
            assert_eq!(*t, 2);
        }
        other => panic!("unexpected response {other:?}"),
    }
    assert_eq!(out.submit.unwrap().velocity, 5.0f64.to_bits());
}

#[test]
fn malformed_frame_changes_nothing() {
    let mut r = ProtobufReactor::new();
    r.apply_cmd("/dev/a".to_string(), ProtobufCmd::Add(config(), DEV), 0);
    let out = r.on_frame(DEV, None, 1);
    assert!(out.responses.is_empty());
    assert!(out.submit.is_none());
}

#[test]
fn remove_then_shutdown_drain() {
    let mut r = ProtobufReactor::new();
    r.apply_cmd("/dev/a".to_string(), ProtobufCmd::Add(config(), DEV), 0);
    r.apply_cmd("/dev/a".to_string(), ProtobufCmd::Shutdown, 1);
    let cvp = CVP::zero();
    let out = r.on_frame(DEV, Some(cvp), 2);
    assert!(out.finished);
    assert_eq!(r.connections.len(), 0);
}

#[test]
fn stop_waveform_reports_end() {
    let mut r = ProtobufReactor::new();
    r.apply_cmd("/dev/a".to_string(), ProtobufCmd::Add(config(), DEV), 0);
    r.apply_cmd(
        "/dev/a".to_string(),
        ProtobufCmd::SetWaveForm(MotorInput::Constant(5.0f64.to_bits())),
        1,
    );
    let (resp, _) = r.apply_cmd("/dev/a".to_string(), ProtobufCmd::StopWaveform, 2);
    assert!(matches!(resp, Some(ProtobufResponse::EndWaveform)));
    assert_eq!(r.connections[0].session.input_cvp, Some(CVP::zero()));
}

#[test]
fn marked_serial_session_drops_on_any_frame_event() {
    let mut r = ProtobufReactor::new();
    r.apply_cmd("/dev/a".to_string(), ProtobufCmd::Add(config(), DEV), 0);
    r.apply_cmd("/dev/a".to_string(), ProtobufCmd::Remove, 1);
    let out = r.on_frame(DEV, None, 2);
    assert!(out.submit.is_none());
    assert_eq!(r.connections.len(), 0);
}
