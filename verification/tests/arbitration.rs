use palanuk_core::anc_pub::AncPubPayload;
use palanuk_core::arbitrator::{Arbitrator, ConfigError, SteererState};
use palanuk_core::cam_pan::{CameraPanningPayload, PositionCommand};
use palanuk_core::hcsr04::HcSr04Payload;
use palanuk_core::opencv_iox2::CornerDirection;
use palanuk_core::opencv_splitter::NsmPayload;
use palanuk_core::pid::PIDControlOutputPayload;
use palanuk_core::propulsion::{PropulsionPayload, WheelDirection};
use palanuk_core::register::DelaySlot;
use palanuk_core::propulsion_adapter::{
    LoopState, PropulsionAdapter, PropulsionAdapterOutputPayload, SteerDirection,
    WorkOrRestState, ZenohTopicsAdapterOutputPayload,
};
use palanuk_core::rotation::{OnAxisRotator, RotateOnAxisState};

fn engine() -> Arbitrator {
    Arbitrator::new(1_170_000, 850_000, 100_000, 5250).unwrap()
}

fn fused(loop_state: LoopState, e_stop: bool) -> PropulsionAdapterOutputPayload {
    PropulsionAdapterOutputPayload {
        loop_state,
        propulsion_payload: PropulsionPayload {
            left_enable: true,
            right_enable: true,
            left_speed: 200_000,
            right_speed: 200_000,
            left_direction: WheelDirection::Forward,
            right_direction: WheelDirection::Forward,
        },
        panner_payload: CameraPanningPayload { pos_cmd: PositionCommand::Front },
        weighted_error: 300_000,
        is_e_stop_triggered: e_stop,
        distance: Some(50_000_000),
    }
}

fn pid(output: i64) -> Option<PIDControlOutputPayload> {
    Some(PIDControlOutputPayload { p: 0, i: 0, d: 0, output })
}

fn vision(corner_y: i64, direction: CornerDirection) -> Option<NsmPayload> {
    Some(NsmPayload {
        abs_line_gradient: 0,
        heading_error: 0,
        corner_detected: true,
        corner_coords: (500_000, corner_y),
        corner_direction: direction,
        vertical_line_valid: true,
    })
}

#[test]
fn all_stop_halts_both_wheels() {
    let p = PropulsionPayload::all_stop();
    assert!(!p.left_enable);
    assert!(!p.right_enable);
    assert_eq!(p.left_speed, 0);
    assert_eq!(p.right_speed, 0);
    assert_eq!(p.left_direction, WheelDirection::Stop);
    assert_eq!(p.right_direction, WheelDirection::Stop);
}

#[test]
fn configuration_is_checked() {
    assert_eq!(Arbitrator::new(-1, 850_000, 100_000, 5250), Err(ConfigError::CompensationOutOfRange));
    assert_eq!(
        Arbitrator::new(1_170_000, 2_000_001, 100_000, 5250),
        Err(ConfigError::CompensationOutOfRange)
    );
    assert_eq!(
        Arbitrator::new(1_170_000, 1_000_000, 100_000, 5250),
        Err(ConfigError::CompensationNotBalanced)
    );
    assert_eq!(
        Arbitrator::new(1_000_000, 1_000_001, 100_000, 5250),
        Err(ConfigError::CompensationNotBalanced)
    );
    assert_eq!(
        Arbitrator::new(1_170_000, 850_000, 1_000_001, 5250),
        Err(ConfigError::SteeringTriggerOutOfRange)
    );
    assert_eq!(
        Arbitrator::new(1_170_000, 850_000, -1, 5250),
        Err(ConfigError::SteeringTriggerOutOfRange)
    );
    // the range is checked before the trigger
    assert_eq!(Arbitrator::new(3_000_000, 850_000, -1, 5250), Err(ConfigError::CompensationOutOfRange));
    let a = Arbitrator::new(1_000_000, 1_000_000, 0, 0).unwrap();
    assert!(a.is_well_formed());
    assert_eq!(a.r_wind_comp_lmtr, 1_000_000);
    assert_eq!(a.steerer_state, SteererState::NotSteering);
    assert_eq!(a.on_axis_rotator, OnAxisRotator::default());
    assert_eq!(a.loop_mode_fdbk, LoopState::Closed);
    assert!(Arbitrator::default().is_well_formed());
    let mut broken = engine();
    broken.r_wind_comp_rmtr = 1_500_000;
    assert!(!broken.is_well_formed());
    let mut odd = engine();
    odd.on_axis_rotator.rotator_state = RotateOnAxisState::Rotating;
    assert!(!odd.is_well_formed());
}

#[test]
fn no_fused_state_gives_no_output_and_changes_nothing() {
    let mut a = engine();
    let before = a;
    assert_eq!(a.process_at(5, None, pid(10), vision(0, CornerDirection::Right)), None);
    assert_eq!(a, before);
}

#[test]
fn e_stop_halts_whatever_else_holds() {
    for mode in [LoopState::Open, LoopState::Closed] {
        for state in [SteererState::NotSteering, SteererState::Steering, SteererState::Done] {
            for v in [None, vision(50_000, CornerDirection::Left), vision(900_000, CornerDirection::Right)] {
                for p in [None, pid(0), pid(400_000)] {
                    let mut a = engine();
                    a.steerer_state = state;
                    let out = a.process_at(1, Some(fused(mode, true)), p, v).unwrap();
                    assert_eq!(out.command, PropulsionPayload::all_stop());
                    assert!(out.feedback.e_stop_trig_fdbk);
                    assert!(a.e_stop_trig_fdbk);
                }
            }
        }
    }
}

#[test]
fn obstacle_at_five_with_threshold_ten_halts_the_rover() {
    let adapter = PropulsionAdapter::new(10_000_000);
    for mode in [LoopState::Open, LoopState::Closed] {
        let intent = ZenohTopicsAdapterOutputPayload {
            loop_state: mode,
            left_enable: true,
            right_enable: true,
            openloop_left_speed: 300_000,
            openloop_right_speed: 300_000,
            left_direction: WheelDirection::Forward,
            right_direction: WheelDirection::Forward,
            steer_direction: SteerDirection::Free,
            work_or_rest_state: WorkOrRestState::AtWork,
            camera_position: PositionCommand::Front,
        };
        let v = vision(50_000, CornerDirection::Right);
        let fusion = adapter
            .process_at(0, Some(intent), Some(HcSr04Payload { distance: Some(5_000_000) }), v)
            .unwrap();
        assert!(fusion.fused.is_e_stop_triggered);
        let mut a = engine();
        let out = a.process_at(0, Some(fusion.fused), pid(100_000), v).unwrap();
        assert_eq!(out.command, PropulsionPayload::all_stop());
        assert_eq!(
            out.feedback,
            AncPubPayload { e_stop_trig_fdbk: true, loop_mode_fdbk: mode, distance: Some(5_000_000) }
        );
    }
}

#[test]
fn lane_keeping_with_zero_correction() {
    let mut a = engine();
    let out = a.process_at(0, Some(fused(LoopState::Closed, false)), pid(0), None).unwrap();
    assert_eq!(
        out.command,
        PropulsionPayload {
            left_enable: true,
            right_enable: true,
            left_speed: 234_000,
            right_speed: 170_000,
            left_direction: WheelDirection::Forward,
            right_direction: WheelDirection::Forward,
        }
    );
    assert_eq!(a.target_speed, Some(200_000));
    assert_eq!(a.loop_mode_fdbk, LoopState::Closed);
    assert!(!a.e_stop_trig_fdbk);
}

#[test]
fn positive_correction_slows_left_and_speeds_up_right() {
    let mut a = engine();
    let out = a.process_at(0, Some(fused(LoopState::Closed, false)), pid(50_000), None).unwrap();
    assert_eq!(out.command.left_speed, 184_000);
    assert_eq!(out.command.right_speed, 220_000);
    let out = a.process_at(0, Some(fused(LoopState::Closed, false)), pid(-50_000), None).unwrap();
    assert_eq!(out.command.left_speed, 284_000);
    assert_eq!(out.command.right_speed, 120_000);
}

#[test]
fn lane_keeping_speeds_are_limited() {
    let mut a = engine();
    let out = a.process_at(0, Some(fused(LoopState::Closed, false)), pid(5_000_000), None).unwrap();
    assert_eq!(out.command.left_speed, 0);
    assert_eq!(out.command.right_speed, 900_000);
    let out = a.process_at(0, Some(fused(LoopState::Closed, false)), pid(i64::MIN), None).unwrap();
    assert_eq!(out.command.left_speed, 900_000);
    assert_eq!(out.command.right_speed, 0);
    let mut fast = fused(LoopState::Closed, false);
    fast.propulsion_payload.left_speed = i64::MAX;
    let out = a.process_at(0, Some(fast), pid(i64::MAX), None).unwrap();
    assert_eq!(out.command.left_speed, 900_000);
    assert_eq!(out.command.right_speed, 900_000);
}

#[test]
fn baseline_speed_is_used_while_no_target_is_set() {
    let a = engine();
    assert_eq!(a.target_speed, None);
    let cmd = a.closed_loop_handler(
        &PIDControlOutputPayload { p: 0, i: 0, d: 0, output: 0 },
        &fused(LoopState::Closed, false),
    );
    assert_eq!(cmd.left_speed, 234_000);
    assert_eq!(cmd.right_speed, 170_000);
    let mut with_target = engine();
    with_target.target_speed = Some(400_000);
    let cmd = with_target.closed_loop_handler(
        &PIDControlOutputPayload { p: 0, i: 0, d: 0, output: 10_000 },
        &fused(LoopState::Closed, false),
    );
    assert_eq!(cmd.left_speed, 458_000);
    assert_eq!(cmd.right_speed, 350_000);
}

#[test]
fn closed_loop_without_controller_output_stops() {
    let mut a = engine();
    let out = a.process_at(0, Some(fused(LoopState::Closed, false)), None, None).unwrap();
    assert_eq!(out.command, PropulsionPayload::all_stop());
}

#[test]
fn corner_triggers_steering_until_the_heading_error_is_small() {
    let mut a = engine();
    assert_eq!(a.steerer_state, SteererState::NotSteering);
    // y = 0.05 is at most the trigger 0.1
    let out = a
        .process_at(0, Some(fused(LoopState::Closed, false)), pid(0), vision(50_000, CornerDirection::Right))
        .unwrap();
    assert_eq!(a.steerer_state, SteererState::Steering);
    // right corner: right wheel outer 0.85 * 0.85, left wheel inner 0.5 * 1.17
    assert_eq!(out.command.left_speed, 585_000);
    assert_eq!(out.command.right_speed, 722_500);
    assert!(out.command.left_enable && out.command.right_enable);
    assert_eq!(out.command.left_direction, WheelDirection::Forward);
    // latched: the corner has moved away, the controller has an output, steering goes on
    let out = a
        .process_at(1, Some(fused(LoopState::Closed, false)), pid(30_000), vision(900_000, CornerDirection::Left))
        .unwrap();
    assert_eq!(a.steerer_state, SteererState::Steering);
    // left corner: left wheel outer 0.85 * 1.17, right wheel inner 0.5 * 0.85
    assert_eq!(out.command.left_speed, 994_500);
    assert_eq!(out.command.right_speed, 425_000);
    // without a vision signal the maneuver waits at a stop
    let out = a.process_at(2, Some(fused(LoopState::Closed, false)), pid(30_000), None).unwrap();
    assert_eq!(out.command, PropulsionPayload::all_stop());
    assert_eq!(a.steerer_state, SteererState::Steering);
    // the heading error falls below 0.1: done, speeds zero in this cycle
    let mut aligned = fused(LoopState::Closed, false);
    aligned.weighted_error = -99_999;
    let out = a.process_at(3, Some(aligned), pid(30_000), vision(900_000, CornerDirection::Left)).unwrap();
    assert_eq!(a.steerer_state, SteererState::Done);
    assert_eq!(out.command.left_speed, 0);
    assert_eq!(out.command.right_speed, 0);
    assert!(out.command.left_enable && out.command.right_enable);
    assert_eq!(out.command.right_direction, WheelDirection::Forward);
    // lane keeping resumes
    let out = a.process_at(4, Some(aligned), pid(0), vision(900_000, CornerDirection::Left)).unwrap();
    assert_eq!(a.steerer_state, SteererState::Done);
    assert_eq!(out.command.left_speed, 234_000);
    assert_eq!(out.command.right_speed, 170_000);
}

#[test]
fn heading_error_at_the_threshold_keeps_steering() {
    for e in [100_000, -100_000] {
        let mut a = engine();
        let mut f = fused(LoopState::Closed, false);
        f.weighted_error = e;
        a.process_at(0, Some(f), None, vision(100_000, CornerDirection::Right)).unwrap();
        assert_eq!(a.steerer_state, SteererState::Steering);
    }
    let mut a = engine();
    a.process_at(0, Some(fused(LoopState::Closed, false)), None, vision(100_001, CornerDirection::Right))
        .unwrap();
    assert_eq!(a.steerer_state, SteererState::NotSteering);
}

#[test]
fn e_stop_during_steering_stops_and_keeps_the_maneuver() {
    let mut a = engine();
    a.steerer_state = SteererState::Steering;
    let mut f = fused(LoopState::Closed, true);
    f.weighted_error = 0;
    let out = a.process_at(0, Some(f), pid(0), vision(900_000, CornerDirection::Right)).unwrap();
    assert_eq!(out.command, PropulsionPayload::all_stop());
    assert_eq!(a.steerer_state, SteererState::Steering);
}

#[test]
fn open_loop_applies_compensation_and_limits() {
    let mut a = engine();
    let out = a.process_at(0, Some(fused(LoopState::Open, false)), pid(100_000), None).unwrap();
    assert_eq!(out.command.left_speed, 234_000);
    assert_eq!(out.command.right_speed, 170_000);
    assert!(out.command.left_enable);
    assert_eq!(out.command.left_direction, WheelDirection::Forward);
    assert_eq!(out.feedback.loop_mode_fdbk, LoopState::Open);
    assert_eq!(a.loop_mode_fdbk, LoopState::Open);
    let mut f = fused(LoopState::Open, false);
    f.propulsion_payload.left_speed = 900_000;
    f.propulsion_payload.right_speed = -5;
    let out = a.process_at(0, Some(f), None, None).unwrap();
    assert_eq!(out.command.left_speed, 1_000_000);
    assert_eq!(out.command.right_speed, 0);
}

#[test]
fn open_loop_enables_no_wheel_that_stops() {
    let mut a = engine();
    let mut f = fused(LoopState::Open, false);
    f.propulsion_payload.left_direction = WheelDirection::Stop;
    let out = a.process_at(0, Some(f), None, None).unwrap();
    assert!(!out.command.left_enable);
    assert!(out.command.right_enable);
}

#[test]
fn steady_inputs_give_the_same_command_each_cycle() {
    for mode in [LoopState::Open, LoopState::Closed] {
        let mut a = engine();
        let first = a.process_at(10, Some(fused(mode, false)), pid(20_000), None).unwrap();
        let after_first = a;
        for t in [20u64, 30, 1_000_000_000_000] {
            let again = a.process_at(t, Some(fused(mode, false)), pid(20_000), None).unwrap();
            assert_eq!(again, first);
            assert_eq!(a, after_first);
        }
    }
}

#[test]
fn sustained_pivot_is_halted_after_its_time() {
    let ms = 1_000_000u64;
    let mut a = engine();
    let mut f = fused(LoopState::Open, false);
    f.propulsion_payload.left_direction = WheelDirection::Forward;
    f.propulsion_payload.right_direction = WheelDirection::Reverse;
    let start = 1_000 * ms;
    let out = a.process_at(start, Some(f), None, None).unwrap();
    assert_eq!(out.command.left_direction, WheelDirection::Forward);
    assert_eq!(out.command.right_direction, WheelDirection::Reverse);
    assert_eq!(a.on_axis_rotator.rotator_state, RotateOnAxisState::Rotating);
    let out = a.process_at(start + 5249 * ms, Some(f), None, None).unwrap();
    assert_eq!(out.command.left_direction, WheelDirection::Forward);
    assert_eq!(out.command.right_direction, WheelDirection::Reverse);
    assert!(out.command.left_enable && out.command.right_enable);
    let out = a.process_at(start + 5250 * ms, Some(f), None, None).unwrap();
    assert_eq!(out.command.left_direction, WheelDirection::Stop);
    assert_eq!(out.command.right_direction, WheelDirection::Stop);
    assert!(!out.command.left_enable && !out.command.right_enable);
    assert_eq!(a.on_axis_rotator.rotator_state, RotateOnAxisState::Done);
    // the stuck command stays halted
    for later in [5251u64, 6000, 20_000] {
        let out = a.process_at(start + later * ms, Some(f), None, None).unwrap();
        assert_eq!(out.command.left_direction, WheelDirection::Stop);
        assert_eq!(out.command.right_direction, WheelDirection::Stop);
        assert_eq!(a.on_axis_rotator.rotator_state, RotateOnAxisState::Done);
    }
    // released, then commanded anew: granted again
    let out = a.process_at(start + 30_000 * ms, Some(fused(LoopState::Open, false)), None, None).unwrap();
    assert_eq!(out.command.left_direction, WheelDirection::Forward);
    assert_eq!(out.command.right_direction, WheelDirection::Forward);
    let out = a.process_at(start + 30_020 * ms, Some(f), None, None).unwrap();
    assert_eq!(out.command.right_direction, WheelDirection::Reverse);
    assert_eq!(a.on_axis_rotator.rotator_state, RotateOnAxisState::Rotating);
    assert_eq!(a.on_axis_rotator.instant_rotating_started, start + 30_020 * ms);
}

#[test]
fn reversed_pivot_after_a_halt_is_granted() {
    let ms = 1_000_000u64;
    let mut a = engine();
    let mut right = fused(LoopState::Open, false);
    right.propulsion_payload.right_direction = WheelDirection::Reverse;
    let mut left = fused(LoopState::Open, false);
    left.propulsion_payload.left_direction = WheelDirection::Reverse;
    a.process_at(0, Some(right), None, None).unwrap();
    let out = a.process_at(6000 * ms, Some(right), None, None).unwrap();
    assert_eq!(out.command.left_direction, WheelDirection::Stop);
    let out = a.process_at(6020 * ms, Some(left), None, None).unwrap();
    assert_eq!(out.command.left_direction, WheelDirection::Reverse);
    assert_eq!(out.command.right_direction, WheelDirection::Forward);
    assert_eq!(a.on_axis_rotator.rotator_state, RotateOnAxisState::Rotating);
}

#[test]
fn e_stop_in_open_loop_leaves_the_pivot_state() {
    let mut a = engine();
    let mut f = fused(LoopState::Open, true);
    f.propulsion_payload.right_direction = WheelDirection::Reverse;
    let out = a.process_at(0, Some(f), None, None).unwrap();
    assert_eq!(out.command, PropulsionPayload::all_stop());
    assert_eq!(a.on_axis_rotator, OnAxisRotator::default());
}

#[test]
fn correction_from_one_cycles_error_steers_the_next_cycle() {
    let adapter = PropulsionAdapter::new(10_000_000);
    let mut a = engine();
    let mut slot: DelaySlot<PIDControlOutputPayload> = DelaySlot::new();
    let intent = ZenohTopicsAdapterOutputPayload {
        loop_state: LoopState::Closed,
        left_enable: true,
        right_enable: true,
        openloop_left_speed: 200_000,
        openloop_right_speed: 200_000,
        left_direction: WheelDirection::Forward,
        right_direction: WheelDirection::Forward,
        steer_direction: SteerDirection::Free,
        work_or_rest_state: WorkOrRestState::AtWork,
        camera_position: PositionCommand::Front,
    };
    let errors = [0i64, 100_000, 0, 0];
    let mut commands = Vec::new();
    for (cycle, error) in errors.iter().enumerate() {
        let seen = NsmPayload {
            abs_line_gradient: 0,
            heading_error: *error,
            corner_detected: false,
            corner_coords: (500_000, 900_000),
            corner_direction: CornerDirection::Right,
            vertical_line_valid: true,
        };
        let fusion = adapter
            .process_at(cycle as u64, Some(intent), Some(HcSr04Payload { distance: Some(50_000_000) }), Some(seen))
            .unwrap();
        // a proportional controller with gain one half
        let correction = PIDControlOutputPayload {
            p: fusion.error_sample.error / 2,
            i: 0,
            d: 0,
            output: fusion.error_sample.error / 2,
        };
        let delayed = slot.exchange(Some(correction));
        let out = a.process_at(cycle as u64, Some(fusion.fused), delayed, Some(seen)).unwrap();
        commands.push((out.command.left_speed, out.command.right_speed));
    }
    // cycle 0 has no correction yet; the error of cycle 1 shows in cycle 2 and only there
    assert_eq!(commands, vec![(0, 0), (234_000, 170_000), (184_000, 220_000), (234_000, 170_000)]);
}
