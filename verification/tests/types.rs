use motor_core::ds402::UserControlInitState;
use motor_core::motor_ctx::CVP;
use motor_core::motor_input::{ImpulseInput, MotorInput, StepInput, SCALAR_ONE_BITS, SECOND_NS};
use motor_core::protobuf::MotorUiConfig;
use motor_core::wire::{i16_read, i32_read, i32_write, le16_read, le16_write, le32_read, le32_write};

#[test]
fn default_cvp_is_idle() {
    let c: CVP = Default::default();
    assert_eq!(c, CVP::zero());
    assert_eq!(f64::from_bits(c.velocity), 0.0);
}

#[test]
fn default_waveform_inputs() {
    // One second of delay and duration, magnitude one.
    let s = StepInput::default();
    assert_eq!(s.delay_ns, SECOND_NS);
    assert_eq!(s.on_dur_ns, SECOND_NS);
    assert_eq!(f64::from_bits(s.magnitude), 1.0);
    assert_eq!(SCALAR_ONE_BITS, 1.0f64.to_bits());
    let i = ImpulseInput::default();
    assert_eq!(i.delay_ns, SECOND_NS);
    assert_eq!(f64::from_bits(i.magnitude), 1.0);
}

#[test]
fn motor_input_equality() {
    assert_eq!(MotorInput::Idle, MotorInput::Idle);
    assert_ne!(MotorInput::Idle, MotorInput::Constant(0));
}

#[test]
fn wire_round_trips() {
    let mut out = Vec::new();
    le16_write(&mut out, 0xBEEF);
    le32_write(&mut out, 0xDEAD_1234);
    i32_write(&mut out, -77);
    assert_eq!(le16_read(&out, 0), 0xBEEF);
    assert_eq!(le32_read(&out, 2), 0xDEAD_1234);
    assert_eq!(i32_read(&out, 6), -77);
    assert_eq!(i16_read(&[0xFE, 0xFF], 0), -2);
}

#[test]
fn serial_ui_config_path() {
    let mut c = MotorUiConfig::default();
    assert_eq!(c.path(), None);
    c.path = Some("/dev/ttyUSB1".to_string());
    assert_eq!(c.path(), Some("/dev/ttyUSB1"));
}

#[test]
fn sdo_init_parameters_carry_values() {
    let p = UserControlInitState::MaxVelocity(3000);
    assert!(matches!(p, UserControlInitState::MaxVelocity(3000)));
}
