use cu29::clock::{CuDuration, RobotClock};
use palanuk_core::cam_pan::{CameraPanningPayload, PositionCommand};
use palanuk_core::hcsr04::HcSr04Payload;
use palanuk_core::opencv_iox2::CornerDirection;
use palanuk_core::opencv_splitter::NsmPayload;
use palanuk_core::propulsion::{PropulsionPayload, WheelDirection};
use palanuk_core::propulsion_adapter::{
    LoopState, PropulsionAdapter, SteerDirection, WorkOrRestState,
    ZenohTopicsAdapterOutputPayload,
};

fn intent(loop_state: LoopState, steer: SteerDirection) -> ZenohTopicsAdapterOutputPayload {
    ZenohTopicsAdapterOutputPayload {
        loop_state,
        left_enable: true,
        right_enable: true,
        openloop_left_speed: 200_000,
        openloop_right_speed: 200_000,
        left_direction: WheelDirection::Forward,
        right_direction: WheelDirection::Forward,
        steer_direction: steer,
        work_or_rest_state: WorkOrRestState::AtWork,
        camera_position: PositionCommand::Left,
    }
}

fn vision(valid: bool, corner: bool) -> NsmPayload {
    NsmPayload {
        abs_line_gradient: 0,
        heading_error: 120_000,
        corner_detected: corner,
        corner_coords: (300_000, 800_000),
        corner_direction: CornerDirection::Right,
        vertical_line_valid: valid,
    }
}

fn reading(cm: i64) -> Option<HcSr04Payload> {
    Some(HcSr04Payload { distance: Some(cm * 1_000_000) })
}

#[test]
fn near_obstacle_triggers_e_stop_in_both_modes() {
    let adapter = PropulsionAdapter::new(10_000_000);
    for mode in [LoopState::Open, LoopState::Closed] {
        let out = adapter
            .process_at(7, Some(intent(mode, SteerDirection::HardLeft)), reading(5), Some(vision(true, true)))
            .unwrap();
        assert!(out.fused.is_e_stop_triggered);
        assert_eq!(out.fused.propulsion_payload, PropulsionPayload::all_stop());
        assert_eq!(out.fused.distance, Some(5_000_000));
        assert_eq!(out.fused.loop_state, mode);
    }
}

#[test]
fn obstacle_at_threshold_does_not_trigger() {
    let adapter = PropulsionAdapter::new(10_000_000);
    let out = adapter
        .process_at(0, Some(intent(LoopState::Open, SteerDirection::Free)), reading(10), None)
        .unwrap();
    assert!(!out.fused.is_e_stop_triggered);
    let just_below = adapter
        .process_at(
            0,
            Some(intent(LoopState::Open, SteerDirection::Free)),
            Some(HcSr04Payload { distance: Some(9_999_999) }),
            None,
        )
        .unwrap();
    assert!(just_below.fused.is_e_stop_triggered);
}

#[test]
fn missing_distance_value_follows_the_policy() {
    let lenient = PropulsionAdapter::new(10_000_000);
    let no_value = Some(HcSr04Payload { distance: None });
    let out = lenient
        .process_at(0, Some(intent(LoopState::Open, SteerDirection::Free)), no_value, None)
        .unwrap();
    assert!(!out.fused.is_e_stop_triggered);
    assert_eq!(out.fused.distance, None);
    let strict = PropulsionAdapter { e_stop_threshold_cm: 10_000_000, e_stop_without_reading: true };
    let out = strict
        .process_at(0, Some(intent(LoopState::Open, SteerDirection::Free)), no_value, None)
        .unwrap();
    assert!(out.fused.is_e_stop_triggered);
    assert_eq!(out.fused.propulsion_payload, PropulsionPayload::all_stop());
}

#[test]
fn at_rest_forces_all_stop() {
    let adapter = PropulsionAdapter::new(10_000_000);
    let mut resting = intent(LoopState::Open, SteerDirection::HardRight);
    resting.work_or_rest_state = WorkOrRestState::AtRest;
    let out = adapter.process_at(0, Some(resting), reading(50), None).unwrap();
    assert!(!out.fused.is_e_stop_triggered);
    assert_eq!(out.fused.propulsion_payload, PropulsionPayload::all_stop());
}

#[test]
fn required_inputs_missing_give_no_output() {
    let adapter = PropulsionAdapter::new(10_000_000);
    assert_eq!(adapter.process_at(0, None, reading(50), Some(vision(true, false))), None);
    assert_eq!(
        adapter.process_at(0, Some(intent(LoopState::Open, SteerDirection::Free)), None, None),
        None
    );
    assert_eq!(
        adapter.process_at(0, Some(intent(LoopState::Closed, SteerDirection::Free)), reading(50), None),
        None
    );
    assert!(adapter
        .process_at(0, Some(intent(LoopState::Open, SteerDirection::Free)), reading(50), None)
        .is_some());
}

#[test]
fn open_loop_steer_override() {
    let adapter = PropulsionAdapter::new(10_000_000);
    let left = adapter
        .process_at(0, Some(intent(LoopState::Open, SteerDirection::HardLeft)), reading(50), None)
        .unwrap();
    assert_eq!(left.fused.propulsion_payload.left_direction, WheelDirection::Reverse);
    assert_eq!(left.fused.propulsion_payload.right_direction, WheelDirection::Forward);
    let right = adapter
        .process_at(0, Some(intent(LoopState::Open, SteerDirection::HardRight)), reading(50), None)
        .unwrap();
    assert_eq!(right.fused.propulsion_payload.left_direction, WheelDirection::Forward);
    assert_eq!(right.fused.propulsion_payload.right_direction, WheelDirection::Reverse);
    for steer in [SteerDirection::Free, SteerDirection::SlightLeft, SteerDirection::SlightRight] {
        let mut i = intent(LoopState::Open, steer);
        i.left_direction = WheelDirection::Reverse;
        let free = adapter.process_at(0, Some(i), reading(50), None).unwrap();
        assert_eq!(free.fused.propulsion_payload.left_direction, WheelDirection::Reverse);
        assert_eq!(free.fused.propulsion_payload.right_direction, WheelDirection::Forward);
        assert_eq!(free.fused.propulsion_payload.left_speed, 200_000);
        assert!(free.fused.propulsion_payload.left_enable);
    }
}

#[test]
fn closed_loop_ignores_steer_override() {
    let adapter = PropulsionAdapter::new(10_000_000);
    let out = adapter
        .process_at(
            0,
            Some(intent(LoopState::Closed, SteerDirection::HardLeft)),
            reading(50),
            Some(vision(true, false)),
        )
        .unwrap();
    assert_eq!(out.fused.propulsion_payload.left_direction, WheelDirection::Forward);
    assert_eq!(out.fused.propulsion_payload.right_direction, WheelDirection::Forward);
}

#[test]
fn heading_error_selection() {
    let adapter = PropulsionAdapter::new(10_000_000);
    let closed = intent(LoopState::Closed, SteerDirection::Free);
    // the lane's line is seen: its heading error is taken
    let out = adapter.process_at(0, Some(closed), reading(50), Some(vision(true, true))).unwrap();
    assert_eq!(out.fused.weighted_error, 120_000);
    assert!(!out.heading_signals_absent);
    // line lost, corner seen: 0.5 - 0.3
    let out = adapter.process_at(0, Some(closed), reading(50), Some(vision(false, true))).unwrap();
    assert_eq!(out.fused.weighted_error, 200_000);
    assert_eq!(out.error_sample.error, 200_000);
    assert!(!out.heading_signals_absent);
    // neither: the held heading error, with the diagnostic
    let out = adapter.process_at(0, Some(closed), reading(50), Some(vision(false, false))).unwrap();
    assert_eq!(out.fused.weighted_error, 120_000);
    assert!(out.heading_signals_absent);
    // open loop: zero
    let open = intent(LoopState::Open, SteerDirection::Free);
    let out = adapter.process_at(0, Some(open), reading(50), Some(vision(false, true))).unwrap();
    assert_eq!(out.fused.weighted_error, 0);
    assert_eq!(out.error_sample.error, 0);
    assert!(!out.heading_signals_absent);
}

#[test]
fn corner_offset_saturates() {
    let mut v = vision(false, true);
    v.corner_coords = (i64::MIN, 0);
    assert_eq!(PropulsionAdapter::heading_error(&v), i64::MAX);
    v.corner_coords = (i64::MAX, 0);
    assert_eq!(PropulsionAdapter::heading_error(&v), 500_000 - i64::MAX);
}

#[test]
fn camera_command_passes_through() {
    let adapter = PropulsionAdapter::new(10_000_000);
    let out = adapter
        .process_at(0, Some(intent(LoopState::Open, SteerDirection::Free)), reading(5), None)
        .unwrap();
    assert_eq!(out.fused.panner_payload, CameraPanningPayload { pos_cmd: PositionCommand::Left });
}

#[test]
fn error_sample_is_stamped_with_the_clock() {
    let (clock, mock) = RobotClock::mock();
    let adapter = PropulsionAdapter::new(10_000_000);
    let i = Some(intent(LoopState::Closed, SteerDirection::Free));
    let first = adapter.process(&clock, i, reading(50), Some(vision(true, false))).unwrap();
    assert_eq!(first.error_sample_tov, 0);
    mock.increment(CuDuration::from_millis(20));
    let second = adapter.process(&clock, i, reading(50), Some(vision(true, false))).unwrap();
    assert_eq!(second.error_sample_tov, 20_000_000);
    assert_eq!(second.fused, first.fused);
    assert_eq!(second, adapter.process_at(20_000_000, i, reading(50), Some(vision(true, false))).unwrap());
}

#[test]
fn loop_state_tags_keep_their_meaning() {
    assert_eq!(LoopState::Open.tag(), 0);
    assert_eq!(LoopState::Closed.tag(), 1);
    assert_eq!(LoopState::from_tag(0), Some(LoopState::Open));
    assert_eq!(LoopState::from_tag(1), Some(LoopState::Closed));
    assert_eq!(LoopState::from_tag(2), None);
    assert_eq!(LoopState::default(), LoopState::Open);
    assert_eq!(WheelDirection::Forward.tag(), 0);
    assert_eq!(WheelDirection::Reverse.tag(), 1);
    assert_eq!(WheelDirection::Stop.tag(), 2);
    assert_eq!(WheelDirection::from_tag(0), Some(WheelDirection::Forward));
    assert_eq!(WheelDirection::from_tag(1), Some(WheelDirection::Reverse));
    assert_eq!(WheelDirection::from_tag(2), Some(WheelDirection::Stop));
    assert_eq!(WheelDirection::from_tag(3), None);
    assert_eq!(WorkOrRestState::default(), WorkOrRestState::AtRest);
    assert_eq!(SteerDirection::default(), SteerDirection::Free);
}
