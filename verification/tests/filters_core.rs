use motor_core::control_cache::ControlStateCache;
use motor_core::controller::Controller;
use motor_core::filter::{filter_select, FilterSelect, FilterType, MovingAverage, PushAction};
use motor_core::motor_ctx::{ControlState, CVP};

#[test]
fn invalid_params_fall_back_to_bypass() {
    // Non-finite or non-positive cutoff, unsupported order, zero window:
    // construction never fails, it degrades to the bypass filter.
    let cases = [
        FilterType::LowpassButter { fc_hz: (-1.0f32).to_bits(), order: 2 },
        FilterType::LowpassButter { fc_hz: f32::NAN.to_bits(), order: 1 },
        FilterType::LowpassButter { fc_hz: f32::INFINITY.to_bits(), order: 1 },
        FilterType::LowpassButter { fc_hz: 0.0f32.to_bits(), order: 1 },
        FilterType::LowpassButter { fc_hz: 10.0f32.to_bits(), order: 7 },
        FilterType::LowpassButter { fc_hz: 10.0f32.to_bits(), order: 0 },
        FilterType::ExponentialMA { alpha: (-0.2f32).to_bits() },
        FilterType::ExponentialMA { alpha: f32::NAN.to_bits() },
        FilterType::MovingAverage { window: 0 },
    ];
    for ft in cases {
        assert_eq!(filter_select(ft), FilterSelect::Bypass, "{ft:?}");
    }
}

#[test]
fn valid_params_select_requested_filter() {
    assert_eq!(
        filter_select(FilterType::MovingAverage { window: 8 }),
        FilterSelect::MA { window: 8 }
    );
    let a = 0.2f32.to_bits();
    assert_eq!(filter_select(FilterType::ExponentialMA { alpha: a }), FilterSelect::EMA {
        alpha: a
    });
    let fc = 10.0f32.to_bits();
    assert_eq!(
        filter_select(FilterType::LowpassButter { fc_hz: fc, order: 1 }),
        FilterSelect::Butter1 { fc_hz: fc }
    );
    assert_eq!(
        filter_select(FilterType::LowpassButter { fc_hz: fc, order: 2 }),
        FilterSelect::Butter2 { fc_hz: fc }
    );
}

/// Drives the verified window exactly as a floating-point moving-average
/// filter would, and checks the result against the naive mean of the last
/// min(samples, window) values.
#[test]
fn window_average_matches_naive_mean() {
    let samples = [3.0f64, -1.5, 4.25, 0.0, 2.5, 100.0, -7.75, 0.125];
    let mut ma = MovingAverage::new(4);
    let mut sum = 0.0f64;
    for (n, &x) in samples.iter().enumerate() {
        let action = ma.push(x.to_bits());
        let avg = match action {
            PushAction::Stored { evicted, denom } => {
                sum += x;
                if let Some(old) = evicted {
                    sum -= f64::from_bits(old);
                }
                sum / denom as f64
            }
            PushAction::Dropped { .. } => panic!("finite sample dropped"),
        };
        let start = if n + 1 > 4 { n + 1 - 4 } else { 0 };
        let tail = &samples[start..=n];
        let naive = tail.iter().sum::<f64>() / tail.len() as f64;
        assert!((avg - naive).abs() < 1e-12, "at sample {n}: {avg} vs {naive}");
    }
}

#[test]
fn growing_phase_denominator_counts_samples() {
    let mut ma = MovingAverage::new(3);
    for expect in 1..=3usize {
        match ma.push(1.0f64.to_bits()) {
            PushAction::Stored { denom, evicted } => {
                assert_eq!(denom, expect);
                assert!(evicted.is_none());
            }
            _ => panic!("dropped"),
        }
    }
    match ma.push(2.0f64.to_bits()) {
        PushAction::Stored { denom, evicted } => {
            assert_eq!(denom, 3);
            assert_eq!(evicted, Some(1.0f64.to_bits()));
        }
        _ => panic!("dropped"),
    }
}

#[test]
fn non_finite_samples_are_dropped() {
    let mut ma = MovingAverage::new(2);
    ma.push(1.0f64.to_bits());
    match ma.push(f64::NAN.to_bits()) {
        PushAction::Dropped { denom } => assert_eq!(denom, 1),
        _ => panic!("NaN stored"),
    }
    match ma.push(f64::INFINITY.to_bits()) {
        PushAction::Dropped { denom } => assert_eq!(denom, 1),
        _ => panic!("infinity stored"),
    }
    // The window still accepts the next finite sample normally.
    match ma.push(2.0f64.to_bits()) {
        PushAction::Stored { denom, evicted } => {
            assert_eq!(denom, 2);
            assert!(evicted.is_none());
        }
        _ => panic!("dropped"),
    }
}

#[test]
fn empty_window_drop_reports_denominator_one() {
    let mut ma = MovingAverage::new(4);
    match ma.push(f64::NAN.to_bits()) {
        PushAction::Dropped { denom } => assert_eq!(denom, 1),
        _ => panic!("NaN stored"),
    }
}

#[test]
fn reset_restarts_growing_phase() {
    let mut ma = MovingAverage::new(2);
    ma.push(1.0f64.to_bits());
    ma.push(2.0f64.to_bits());
    ma.reset();
    match ma.push(5.0f64.to_bits()) {
        PushAction::Stored { denom, evicted } => {
            assert_eq!(denom, 1);
            assert!(evicted.is_none());
        }
        _ => panic!("dropped"),
    }
}

#[test]
fn zero_window_is_widened_to_one() {
    let mut ma = MovingAverage::new(0);
    assert_eq!(ma.window, 1);
    match ma.push(3.0f64.to_bits()) {
        PushAction::Stored { denom, .. } => assert_eq!(denom, 1),
        _ => panic!("dropped"),
    }
}

#[test]
fn control_cache_keeps_modes_independent() {
    let mut c = ControlStateCache::new();
    c.set_pos_ctrl(true, false);
    c.set_vel_ctrl(false, true);
    c.set_i_ctrl(true, true);
    assert!(c.pos_ctrl_vel());
    assert!(!c.pos_ctrl_i());
    assert!(!c.vel_ctrl_pos());
    assert!(c.vel_ctrl_i());
    assert!(c.i_ctrl_pos());
    assert!(c.i_ctrl_vel());
    // Overwriting one mode leaves the others alone.
    c.set_pos_ctrl(false, true);
    assert!(!c.pos_ctrl_vel());
    assert!(c.pos_ctrl_i());
    assert!(c.vel_ctrl_i());
    assert!(c.i_ctrl_pos());
}

#[test]
fn passthrough_controller_returns_input() {
    let mut ctrl = Controller::Passthrough;
    let input = CVP { current: 0, position: 0, velocity: 2.0f64.to_bits() };
    let output = CVP { current: 0, position: 1, velocity: 3.0f64.to_bits() };
    let state = ControlState::Velocity { show_position: false, show_torque: false };
    assert_eq!(ctrl.update(input, output, &state), input);
}
