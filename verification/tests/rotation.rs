use cu29::clock::{CuDuration, RobotClock};
use palanuk_core::arbitrator::Arbitrator;
use palanuk_core::cam_pan::{CameraPanningPayload, PositionCommand};
use palanuk_core::propulsion::{PropulsionPayload, WheelDirection};
use palanuk_core::propulsion_adapter::{LoopState, PropulsionAdapterOutputPayload};
use palanuk_core::rotation::{
    rising_edge, OnAxisRotator, RotateOnAxisCmd, RotateOnAxisState,
    ON_AXIS_ROTATION_DURATION_MILLISEC,
};

#[test]
fn pivot_is_inferred_from_the_wheel_directions() {
    let (fwd, rev, stop) = (WheelDirection::Forward, WheelDirection::Reverse, WheelDirection::Stop);
    assert_eq!(RotateOnAxisCmd::from_wheel_dir(fwd, rev), RotateOnAxisCmd::RotateRight);
    assert_eq!(RotateOnAxisCmd::from_wheel_dir(rev, fwd), RotateOnAxisCmd::RotateLeft);
    for pair in [(fwd, fwd), (rev, rev), (stop, stop), (fwd, stop), (stop, rev)] {
        assert_eq!(RotateOnAxisCmd::from_wheel_dir(pair.0, pair.1), RotateOnAxisCmd::Free);
    }
}

#[test]
fn only_a_newly_appearing_pivot_is_an_edge() {
    let (free, left, right) =
        (RotateOnAxisCmd::Free, RotateOnAxisCmd::RotateLeft, RotateOnAxisCmd::RotateRight);
    assert!(rising_edge(free, left));
    assert!(rising_edge(free, right));
    assert!(rising_edge(left, right));
    assert!(rising_edge(right, left));
    assert!(!rising_edge(free, free));
    assert!(!rising_edge(left, left));
    assert!(!rising_edge(right, right));
    assert!(!rising_edge(left, free));
    assert!(!rising_edge(right, free));
}

#[test]
fn default_rotator_is_idle() {
    let r = OnAxisRotator::default();
    assert_eq!(r.current_cmd, RotateOnAxisCmd::Free);
    assert_eq!(r.last_cmd, RotateOnAxisCmd::Free);
    assert_eq!(r.rotator_state, RotateOnAxisState::Init);
    assert!(r.holds_inv());
    let mut odd = r;
    odd.rotator_state = RotateOnAxisState::Rotating;
    assert!(!odd.holds_inv());
    odd.current_cmd = RotateOnAxisCmd::RotateLeft;
    assert!(odd.holds_inv());
    assert_eq!(ON_AXIS_ROTATION_DURATION_MILLISEC, 5250);
}

#[test]
fn command_is_latched_while_rotating() {
    let mut r = OnAxisRotator::default();
    r.update_current_cmd_from_wheel_dir(WheelDirection::Forward, WheelDirection::Reverse);
    assert_eq!(r.current_cmd, RotateOnAxisCmd::RotateRight);
    assert_eq!(r.last_cmd, RotateOnAxisCmd::Free);
    assert_eq!(r.should_rotate_at(100, 5250), (true, Some(RotateOnAxisCmd::RotateRight)));
    assert_eq!(r.rotator_state, RotateOnAxisState::Rotating);
    assert_eq!(r.instant_rotating_started, 100);
    let latched = r;
    r.update_current_cmd_from_wheel_dir(WheelDirection::Forward, WheelDirection::Forward);
    assert_eq!(r, latched);
}

#[test]
fn zero_duration_halts_at_once() {
    let mut r = OnAxisRotator::default();
    r.update_current_cmd_from_wheel_dir(WheelDirection::Reverse, WheelDirection::Forward);
    assert_eq!(r.should_rotate_at(77, 0), (false, None));
    assert_eq!(r.rotator_state, RotateOnAxisState::Done);
}

#[test]
fn clock_running_backwards_counts_as_no_time() {
    let mut r = OnAxisRotator::default();
    r.update_current_cmd_from_wheel_dir(WheelDirection::Reverse, WheelDirection::Forward);
    assert_eq!(r.should_rotate_at(1_000_000_000, 1), (true, Some(RotateOnAxisCmd::RotateLeft)));
    assert_eq!(r.should_rotate_at(5, 1), (true, Some(RotateOnAxisCmd::RotateLeft)));
    assert_eq!(r.should_rotate_at(1_000_999_999, 1), (true, Some(RotateOnAxisCmd::RotateLeft)));
    assert_eq!(r.should_rotate_at(1_001_000_000, 1), (false, None));
}

#[test]
fn huge_duration_never_expires() {
    let mut r = OnAxisRotator::default();
    r.update_current_cmd_from_wheel_dir(WheelDirection::Reverse, WheelDirection::Forward);
    assert_eq!(r.should_rotate_at(0, u64::MAX), (true, Some(RotateOnAxisCmd::RotateLeft)));
    assert_eq!(r.should_rotate_at(u64::MAX, u64::MAX), (true, Some(RotateOnAxisCmd::RotateLeft)));
}

#[test]
fn rotator_reads_the_robot_clock() {
    let (clock, mock) = RobotClock::mock();
    mock.increment(CuDuration::from_millis(40));
    let mut r = OnAxisRotator::default();
    r.update_current_cmd_from_wheel_dir(WheelDirection::Forward, WheelDirection::Reverse);
    assert_eq!(r.should_rotate(&clock, 5250), (true, Some(RotateOnAxisCmd::RotateRight)));
    assert_eq!(r.instant_rotating_started, 40_000_000);
    mock.increment(CuDuration::from_millis(5249));
    assert_eq!(r.should_rotate(&clock, 5250), (true, Some(RotateOnAxisCmd::RotateRight)));
    mock.increment(CuDuration::from_millis(1));
    assert_eq!(r.should_rotate(&clock, 5250), (false, None));
    assert_eq!(r.rotator_state, RotateOnAxisState::Done);
}

#[test]
fn sustained_pivot_beyond_5250_ms_is_forced_to_stop() {
    let (clock, mock) = RobotClock::mock();
    let mut a = Arbitrator::new(1_170_000, 850_000, 100_000, ON_AXIS_ROTATION_DURATION_MILLISEC).unwrap();
    let pivot = PropulsionAdapterOutputPayload {
        loop_state: LoopState::Open,
        propulsion_payload: PropulsionPayload {
            left_enable: true,
            right_enable: true,
            left_speed: 300_000,
            right_speed: 300_000,
            left_direction: WheelDirection::Forward,
            right_direction: WheelDirection::Reverse,
        },
        panner_payload: CameraPanningPayload { pos_cmd: PositionCommand::Front },
        weighted_error: 0,
        is_e_stop_triggered: false,
        distance: None,
    };
    let mut halted_at = None;
    // one cycle every 50 ms for 6 s
    for cycle in 0..120u64 {
        let out = a.process(&clock, Some(pivot), None, None).unwrap();
        let t = cycle * 50;
        if t < 5250 {
            assert_eq!(out.command.left_direction, WheelDirection::Forward);
            assert_eq!(out.command.right_direction, WheelDirection::Reverse);
        } else {
            assert_eq!(out.command.left_direction, WheelDirection::Stop);
            assert_eq!(out.command.right_direction, WheelDirection::Stop);
            assert!(!out.command.left_enable && !out.command.right_enable);
            if halted_at.is_none() {
                halted_at = Some(t);
            }
        }
        mock.increment(CuDuration::from_millis(50));
    }
    assert_eq!(halted_at, Some(5250));
    assert_eq!(a.on_axis_rotator.rotator_state, RotateOnAxisState::Done);
}

#[test]
fn rotator_cycle_by_cycle() {
    let ms = 1_000_000u64;
    let mut r = OnAxisRotator::default();
    let (fwd, rev) = (WheelDirection::Forward, WheelDirection::Reverse);
    assert!(!r.cycle(fwd, fwd, 0, 100));
    assert_eq!(r, OnAxisRotator::default());
    assert!(!r.cycle(rev, fwd, 10 * ms, 100));
    assert_eq!(r.rotator_state, RotateOnAxisState::Rotating);
    assert_eq!(r.instant_rotating_started, 10 * ms);
    assert!(!r.cycle(rev, fwd, 109 * ms, 100));
    assert!(r.cycle(rev, fwd, 110 * ms, 100));
    assert_eq!(r.rotator_state, RotateOnAxisState::Done);
    assert!(r.cycle(rev, fwd, 111 * ms, 100));
    assert!(r.cycle(rev, fwd, 5, 100));
    assert!(!r.cycle(fwd, fwd, 120 * ms, 100));
    assert_eq!(r.rotator_state, RotateOnAxisState::Done);
    assert_eq!(r.current_cmd, RotateOnAxisCmd::Free);
    assert_eq!(r.last_cmd, RotateOnAxisCmd::RotateLeft);
    assert!(!r.cycle(fwd, rev, 130 * ms, 100));
    assert_eq!(r.rotator_state, RotateOnAxisState::Rotating);
    assert_eq!(r.current_cmd, RotateOnAxisCmd::RotateRight);
    // the command is latched: a release is not seen, and the halt comes when the time is spent
    assert!(!r.cycle(fwd, fwd, 140 * ms, 100));
    assert_eq!(r.current_cmd, RotateOnAxisCmd::RotateRight);
    assert!(r.cycle(fwd, fwd, 230 * ms, 100));
    assert!(!r.cycle(fwd, fwd, 240 * ms, 100));
}
