use motor_core::fourier::{
    recv_tag, send_tag, tag_ip, tag_is_send, CommandSelect, Completion, FourierCmd,
    FourierEncodeKind, FourierReactor, FourierResponse, MotorUiConfig, ParsedReply,
};
use motor_core::motor_ctx::{ControlState, MotorConfig, CVP};
use motor_core::motor_input::MotorInput;

fn config(state: ControlState) -> MotorConfig {
    MotorConfig { gear_reduction: 2.0f64.to_bits(), controller: None, state }
}

fn vel_state() -> ControlState {
    ControlState::Velocity { show_position: false, show_torque: false }
}

fn telemetry(v: f64) -> Completion {
    Completion::Received(ParsedReply::Telemetry(CVP {
        current: 0,
        position: 0,
        velocity: v.to_bits(),
    }))
}

const IP: u32 = 0x0A00_0001;

#[test]
fn add_submits_enable_handshake() {
    let mut r = FourierReactor::new();
    let (resp, sub) = r.apply_cmd(IP, FourierCmd::Add(FourierEncodeKind::Binary, None, config(vel_state())), 0);
    assert!(resp.is_none());
    let sub = sub.unwrap();
    assert_eq!(sub.ip, IP);
    assert_eq!(sub.select, CommandSelect::Enable);
    assert_eq!(sub.cvp, CVP::zero());
    assert_eq!(r.connections[0].in_flight, 1);
}

#[test]
fn duplicate_add_keeps_prior_session() {
    // Add with an identity already present returns DuplicateConnections and
    // leaves the prior session's configuration unchanged.
    let mut r = FourierReactor::new();
    r.apply_cmd(IP, FourierCmd::Add(FourierEncodeKind::Json, None, config(vel_state())), 0);
    let before_encode = r.connections[0].session.backend_specific.encode;
    let before_gear = r.connections[0].session.motor_config.gear_reduction;
    let (resp, sub) = r.apply_cmd(
        IP,
        FourierCmd::Add(
            FourierEncodeKind::Binary,
            Some(5),
            MotorConfig {
                gear_reduction: 9.0f64.to_bits(),
                controller: None,
                state: ControlState::Position { show_velocity: true, show_torque: true },
            },
        ),
        1,
    );
    assert!(matches!(resp, Some(FourierResponse::DuplicateConnections)));
    assert!(sub.is_none());
    assert_eq!(r.connections.len(), 1);
    assert_eq!(r.connections[0].session.backend_specific.encode, before_encode);
    assert_eq!(r.connections[0].session.motor_config.gear_reduction, before_gear);
}

#[test]
fn handshake_ack_enables_and_resubmits() {
    let mut r = FourierReactor::new();
    r.apply_cmd(IP, FourierCmd::Add(FourierEncodeKind::Binary, None, config(vel_state())), 0);
    // A non-acknowledging reply keeps the handshake pending.
    let out = r.on_completion(IP, Completion::Received(ParsedReply::StateAck(3)), 1);
    assert_eq!(out.submit.unwrap().select, CommandSelect::Enable);
    // The state code 8 acknowledges; the next cycle sends the set-command.
    let out = r.on_completion(IP, Completion::Received(ParsedReply::StateAck(8)), 2);
    assert_eq!(out.submit.unwrap().select, CommandSelect::SetVelocity(FourierEncodeKind::Binary));
    assert!(out.responses.is_empty());
}

#[test]
fn command_select_follows_control_state() {
    for (state, want) in [
        (
            ControlState::Position { show_velocity: false, show_torque: false },
            CommandSelect::SetPosition(FourierEncodeKind::Json),
        ),
        (
            ControlState::Velocity { show_position: false, show_torque: false },
            CommandSelect::SetVelocity(FourierEncodeKind::Json),
        ),
        (
            ControlState::Torque { show_position: false, show_velocity: false },
            CommandSelect::SetCurrent(FourierEncodeKind::Json),
        ),
    ] {
        let mut r = FourierReactor::new();
        r.apply_cmd(IP, FourierCmd::Add(FourierEncodeKind::Json, None, config(state)), 0);
        r.on_completion(IP, Completion::Received(ParsedReply::StateAck(8)), 1);
        let out = r.on_completion(IP, telemetry(0.0), 2);
        assert_eq!(out.submit.unwrap().select, want);
    }
}

#[test]
fn telemetry_reports_output_and_resubmits_command() {
    let mut r = FourierReactor::new();
    r.apply_cmd(IP, FourierCmd::Add(FourierEncodeKind::Binary, None, config(vel_state())), 0);
    r.on_completion(IP, Completion::Received(ParsedReply::StateAck(8)), 1);
    r.apply_cmd(IP, FourierCmd::SetWaveForm(MotorInput::Constant(5.0f64.to_bits())), 2);
    let out = r.on_completion(IP, telemetry(4.5), 3);
    assert_eq!(out.responses.len(), 1);
    match &out.responses[0] {
        (ip, FourierResponse::OutputCVP(cvp, t)) => {
            assert_eq!(*ip, IP);
            assert_eq!(cvp.velocity, 4.5f64.to_bits());
            assert_eq!(*t, 3);
        }
        other => panic!("unexpected response {other:?}"),
    }
    let sub = out.submit.unwrap();
    assert_eq!(sub.cvp.velocity, 5.0f64.to_bits());
    assert_eq!(sub.gear_reduction, 2.0f64.to_bits());
}

#[test]
fn waveform_end_reported_once() {
    let mut r = FourierReactor::new();
    r.apply_cmd(IP, FourierCmd::Add(FourierEncodeKind::Binary, None, config(vel_state())), 0);
    r.on_completion(IP, Completion::Received(ParsedReply::StateAck(8)), 1);
    let step = motor_core::motor_input::StepInput {
        delay_ns: 0,
        magnitude: 1.0f64.to_bits(),
        on_dur_ns: 1_000_000_000,
    };
    r.apply_cmd(IP, FourierCmd::SetWaveForm(MotorInput::Step(step)), 0);
    let out = r.on_completion(IP, telemetry(0.0), 2_000_000_000);
    assert!(matches!(out.responses[0].1, FourierResponse::EndWaveform));
    assert!(matches!(out.responses[1].1, FourierResponse::OutputCVP(..)));
    let out = r.on_completion(IP, telemetry(0.0), 3_000_000_000);
    assert_eq!(out.responses.len(), 1);
    assert!(matches!(out.responses[0].1, FourierResponse::OutputCVP(..)));
}

#[test]
fn timeout_clears_handshake() {
    let mut r = FourierReactor::new();
    r.apply_cmd(IP, FourierCmd::Add(FourierEncodeKind::Binary, None, config(vel_state())), 0);
    r.on_completion(IP, Completion::Received(ParsedReply::StateAck(8)), 1);
    let out = r.on_completion(IP, Completion::TimedOut, 2);
    assert!(matches!(out.responses[0].1, FourierResponse::Timeout));
    assert_eq!(out.submit.unwrap().select, CommandSelect::Enable);
}

#[test]
fn error_is_forwarded_and_cycle_resubmitted() {
    let mut r = FourierReactor::new();
    r.apply_cmd(IP, FourierCmd::Add(FourierEncodeKind::Binary, None, config(vel_state())), 0);
    let out = r.on_completion(IP, Completion::Failed(111), 1);
    assert!(matches!(out.responses[0].1, FourierResponse::Error(111)));
    assert!(out.submit.is_some());
}

#[test]
fn cancelled_is_ignored() {
    let mut r = FourierReactor::new();
    r.apply_cmd(IP, FourierCmd::Add(FourierEncodeKind::Binary, None, config(vel_state())), 0);
    let out = r.on_completion(IP, Completion::Cancelled, 1);
    assert!(out.responses.is_empty());
    assert!(out.submit.is_none());
    assert!(!out.finished);
}

#[test]
fn remove_drains_on_next_telemetry() {
    let mut r = FourierReactor::new();
    r.apply_cmd(IP, FourierCmd::Add(FourierEncodeKind::Binary, None, config(vel_state())), 0);
    r.on_completion(IP, Completion::Received(ParsedReply::StateAck(8)), 1);
    r.apply_cmd(IP, FourierCmd::Remove, 2);
    // The in-flight cycle completes, then the session is dropped.
    let out = r.on_completion(IP, telemetry(0.0), 3);
    assert!(out.submit.is_none());
    assert_eq!(r.connections.len(), 0);
    assert!(!out.finished);
}

#[test]
fn shutdown_finishes_when_table_drains() {
    let mut r = FourierReactor::new();
    r.apply_cmd(IP, FourierCmd::Add(FourierEncodeKind::Binary, None, config(vel_state())), 0);
    r.on_completion(IP, Completion::Received(ParsedReply::StateAck(8)), 1);
    r.apply_cmd(IP, FourierCmd::Shutdown, 2);
    let out = r.on_completion(IP, telemetry(0.0), 3);
    assert!(out.finished);
    assert_eq!(r.connections.len(), 0);
}

#[test]
fn marked_session_ignores_set_waveform() {
    let mut r = FourierReactor::new();
    r.apply_cmd(IP, FourierCmd::Add(FourierEncodeKind::Binary, None, config(vel_state())), 0);
    r.apply_cmd(IP, FourierCmd::Remove, 1);
    r.apply_cmd(IP, FourierCmd::SetWaveForm(MotorInput::Constant(5.0f64.to_bits())), 2);
    assert_eq!(r.connections[0].session.input_cvp, None);
}

#[test]
fn at_most_one_cycle_outstanding() {
    // Through adds, handshakes, telemetry and errors, no session ever has
    // more than one cycle in flight.
    let mut r = FourierReactor::new();
    r.apply_cmd(IP, FourierCmd::Add(FourierEncodeKind::Binary, None, config(vel_state())), 0);
    assert!(r.connections.iter().all(|c| c.in_flight <= 1));
    r.on_completion(IP, Completion::Received(ParsedReply::StateAck(8)), 1);
    assert!(r.connections.iter().all(|c| c.in_flight <= 1));
    r.on_completion(IP, telemetry(1.0), 2);
    assert!(r.connections.iter().all(|c| c.in_flight <= 1));
    r.on_completion(IP, Completion::Failed(5), 3);
    assert!(r.connections.iter().all(|c| c.in_flight <= 1));
}

#[test]
fn completion_tags_round_trip() {
    assert_eq!(tag_ip(recv_tag(IP)), IP);
    assert_eq!(tag_ip(send_tag(IP)), IP);
    assert!(!tag_is_send(recv_tag(IP)));
    assert!(tag_is_send(send_tag(IP)));
}

#[test]
fn parse_mode_tracks_handshake() {
    let mut r = FourierReactor::new();
    assert_eq!(r.parse_mode(IP), None);
    r.apply_cmd(IP, FourierCmd::Add(FourierEncodeKind::Json, None, config(vel_state())), 0);
    assert_eq!(r.parse_mode(IP), Some((false, FourierEncodeKind::Json)));
    r.on_completion(IP, Completion::Received(ParsedReply::StateAck(8)), 1);
    assert_eq!(r.parse_mode(IP), Some((true, FourierEncodeKind::Json)));
}

#[test]
fn ui_config_ip() {
    let mut c = MotorUiConfig::default();
    assert_eq!(c.ip_addr(), None);
    c.ip = Some(IP);
    assert_eq!(c.ip_addr(), Some(IP));
}

#[test]
fn undecodable_payload_forces_rehandshake() {
    let mut r = FourierReactor::new();
    r.apply_cmd(IP, FourierCmd::Add(FourierEncodeKind::Binary, None, config(vel_state())), 0);
    r.on_completion(IP, Completion::Received(ParsedReply::StateAck(8)), 1);
    let out = r.on_completion(IP, Completion::Received(ParsedReply::Malformed), 2);
    assert!(out.responses.is_empty());
    assert_eq!(out.submit.unwrap().select, CommandSelect::Enable);
    assert_eq!(r.parse_mode(IP), Some((false, FourierEncodeKind::Binary)));
}

#[test]
fn remove_drains_on_failed_completion_too() {
    // The drain waits only for the in-flight cycle to finish, however it
    // finishes.
    let mut r = FourierReactor::new();
    r.apply_cmd(IP, FourierCmd::Add(FourierEncodeKind::Binary, None, config(vel_state())), 0);
    r.apply_cmd(IP, FourierCmd::Remove, 1);
    let out = r.on_completion(IP, Completion::Failed(5), 2);
    assert!(out.responses.is_empty());
    assert!(out.submit.is_none());
    assert_eq!(r.connections.len(), 0);
}
